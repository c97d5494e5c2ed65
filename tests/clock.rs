use lesson_signup::clock::{MidnightTime, UnixTime, EpochDay};
use lesson_signup::config::{parse_time, ConfigError};

#[test]
fn hour_and_minute_round_trip() {
    for hour in 0..24u32 {
        for minute in 0..60u32 {
            let t = MidnightTime::from_hm(hour, minute);
            assert_eq!(t.hour(), hour);
            assert_eq!(t.minute(), minute);
        }
    }
    assert_eq!(MidnightTime::from_hm(9, 30), MidnightTime(570));
    assert_eq!(MidnightTime::from_hm(23, 59), MidnightTime(1439));
}

#[test]
fn parse_plain_times() {
    assert_eq!(parse_time("09:30"), Ok(MidnightTime(570)));
    assert_eq!(parse_time("9:05"), Ok(MidnightTime(545)));
    assert_eq!(parse_time("0:00"), Ok(MidnightTime(0)));
    assert_eq!(parse_time("00:00"), Ok(MidnightTime(0)));
    assert_eq!(parse_time("23:59"), Ok(MidnightTime(1439)));
}

#[test]
fn parse_rejects_wrong_format() {
    assert_eq!(parse_time(""), Err(ConfigError::WrongFormat));
    assert_eq!(parse_time("0930"), Err(ConfigError::WrongFormat));
    assert_eq!(parse_time("9:"), Err(ConfigError::WrongFormat));
    assert_eq!(parse_time(":30"), Err(ConfigError::WrongFormat));
    assert_eq!(parse_time("0:0"), Err(ConfigError::WrongFormat));
    assert_eq!(parse_time("9:3"), Err(ConfigError::WrongFormat));
    assert_eq!(parse_time("123:45"), Err(ConfigError::WrongFormat));
    assert_eq!(parse_time("7:300"), Err(ConfigError::WrongFormat));
    assert_eq!(parse_time("x1:2y 3:4"), Err(ConfigError::WrongFormat));
    assert_eq!(parse_time(" 09:30"), Err(ConfigError::WrongFormat));
    assert_eq!(parse_time("09:30 "), Err(ConfigError::WrongFormat));
    assert_eq!(parse_time("09-30"), Err(ConfigError::WrongFormat));
}

#[test]
fn parse_rejects_incorrect_time() {
    assert_eq!(parse_time("24:00"), Err(ConfigError::IncorrectTime));
    assert_eq!(parse_time("12:60"), Err(ConfigError::IncorrectTime));
    assert_eq!(parse_time("99:99"), Err(ConfigError::IncorrectTime));
}

#[test]
fn unix_time_day_and_next_day() {
    assert_eq!(UnixTime(0).to_naive_date(), EpochDay(0));
    assert_eq!(UnixTime(86399).to_naive_date(), EpochDay(0));
    assert_eq!(UnixTime(86400).to_naive_date(), EpochDay(1));
    assert_eq!(UnixTime(-1).to_naive_date(), EpochDay(-1));
    assert_eq!(UnixTime(-86400).to_naive_date(), EpochDay(-1));
    assert_eq!(UnixTime(-86401).to_naive_date(), EpochDay(-2));
    assert_eq!(UnixTime(1_700_006_400).add_day(), UnixTime(1_700_092_800));
}

#[test]
fn lookahead_is_midnight_fifteen_days_on() {
    assert_eq!(UnixTime::lookahead_midnight(719_163), UnixTime(15 * 86400));
    assert_eq!(UnixTime::lookahead_midnight(738_886), UnixTime((738_886 - 719_163 + 15) * 86400));
}

#[test]
fn times_print_as_numbers() {
    assert_eq!(UnixTime(1_700_006_400).to_string(), "1700006400");
    assert_eq!(UnixTime(-5).to_string(), "-5");
    assert_eq!(MidnightTime(570).to_string(), "570");
    assert_eq!(MidnightTime(0).to_string(), "0");
    assert_eq!(UnixTime(i64::MIN).to_string(), "-9223372036854775808");
    assert_eq!(UnixTime(i64::MAX).to_string(), "9223372036854775807");
    assert_eq!(UnixTime(10).to_string(), "10");
}
