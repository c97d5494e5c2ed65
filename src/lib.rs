//! Signing up for a lesson slot: the schedule a provider reports for one day,
//! the decision whether a wanted time of day is free, and the request bodies
//! and answers exchanged with the provider.

pub mod clock;
pub mod config;
pub mod provider;
pub mod run;
pub mod schedule;
pub mod session;
pub mod text;
