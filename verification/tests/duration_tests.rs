use human_readable_time::traits::{AsDays, AsHours, AsMinutes, AsSeconds};
use human_readable_time::HumanReadableDuration;

#[test]
fn from_u32_works() {
    let representation = HumanReadableDuration::from(300 as u32);
    assert_eq!(300, representation.as_seconds());
    assert_eq!(5, representation.as_minutes());
}

#[test]
fn from_u64_works() {
    let representation = HumanReadableDuration::from(300 as u64);
    assert_eq!(300, representation.as_seconds());
    assert_eq!(5, representation.as_minutes());
}

#[test]
fn from_str_with_empty_string_will_be_handled_gracefully() {
    let representation = HumanReadableDuration::from_str("");
    assert_eq!(true, representation.is_err());
}

#[test]
fn from_str_10_s_will_be_handled_gracefully() {
    let representation = HumanReadableDuration::from_str("10 s");
    assert_eq!(true, representation.is_err());
}

#[test]
fn from_str_10s_works() {
    let representation = HumanReadableDuration::from_str("10s");
    assert_eq!(true, representation.is_ok());
    assert_eq!(10, representation.as_ref().unwrap().as_seconds());
    assert_eq!(0, representation.as_ref().unwrap().as_minutes());
}

#[test]
fn from_str_60s_works() {
    let representation = HumanReadableDuration::from_str("60s");
    assert_eq!(true, representation.is_ok());
    assert_eq!(60, representation.as_ref().unwrap().as_seconds());
    assert_eq!(1, representation.as_ref().unwrap().as_minutes());
}

#[test]
fn from_str_61s_works() {
    let representation = HumanReadableDuration::from_str("61s");
    assert_eq!(true, representation.is_ok());
    assert_eq!(61, representation.as_ref().unwrap().as_seconds());
    assert_eq!(1, representation.as_ref().unwrap().as_minutes());
}

#[test]
fn from_str_5_m_will_be_handled_gracefully() {
    let representation = HumanReadableDuration::from_str("5 m");
    assert_eq!(true, representation.is_err());
}

#[test]
fn from_str_5m_works() {
    let representation = HumanReadableDuration::from_str("5m");
    assert_eq!(true, representation.is_ok());
    assert_eq!(300, representation.as_ref().unwrap().as_seconds());
    assert_eq!(5, representation.as_ref().unwrap().as_minutes());
}

#[test]
fn from_str_60m_works() {
    let representation = HumanReadableDuration::from_str("60m");
    assert_eq!(true, representation.is_ok());
    assert_eq!(3600, representation.as_ref().unwrap().as_seconds());
    assert_eq!(60, representation.as_ref().unwrap().as_minutes());
    assert_eq!(1, representation.as_ref().unwrap().as_hours());
}

#[test]
fn from_str_61m_works() {
    let representation = HumanReadableDuration::from_str("61m");
    assert_eq!(true, representation.is_ok());
    assert_eq!(3660, representation.as_ref().unwrap().as_seconds());
    assert_eq!(61, representation.as_ref().unwrap().as_minutes());
    assert_eq!(1, representation.as_ref().unwrap().as_hours());
}

#[test]
fn from_str_5_h_will_be_handled_gracefully() {
    let representation = HumanReadableDuration::from_str("5 h");
    assert_eq!(true, representation.is_err());
}

#[test]
fn from_str_5h_works() {
    let representation = HumanReadableDuration::from_str("5h");
    assert_eq!(true, representation.is_ok());
    assert_eq!(18000, representation.as_ref().unwrap().as_seconds());
    assert_eq!(300, representation.as_ref().unwrap().as_minutes());
    assert_eq!(5, representation.as_ref().unwrap().as_hours());
}

#[test]
fn from_str_24h_works() {
    let representation = HumanReadableDuration::from_str("24h");
    assert_eq!(true, representation.is_ok());
    assert_eq!(86400, representation.as_ref().unwrap().as_seconds());
    assert_eq!(1440, representation.as_ref().unwrap().as_minutes());
    assert_eq!(24, representation.as_ref().unwrap().as_hours());
}

#[test]
fn from_str_25h_works() {
    let representation = HumanReadableDuration::from_str("25h");
    assert_eq!(true, representation.is_ok());
    assert_eq!(90000, representation.as_ref().unwrap().as_seconds());
    assert_eq!(1500, representation.as_ref().unwrap().as_minutes());
    assert_eq!(25, representation.as_ref().unwrap().as_hours());
}

#[test]
fn from_str_5_d_will_be_handled_gracefully() {
    let representation = HumanReadableDuration::from_str("5 d");
    assert_eq!(true, representation.is_err());
}

#[test]
fn from_str_5d_works() {
    let representation = HumanReadableDuration::from_str("5d");
    assert_eq!(true, representation.is_ok());
    assert_eq!(432000, representation.as_ref().unwrap().as_seconds());
    assert_eq!(7200, representation.as_ref().unwrap().as_minutes());
    assert_eq!(120, representation.as_ref().unwrap().as_hours());
    assert_eq!(5, representation.as_ref().unwrap().as_days());
}

#[test]
fn from_str_32d_works() {
    let representation = HumanReadableDuration::from_str("32d");
    assert_eq!(true, representation.is_ok());
    assert_eq!(2764800, representation.as_ref().unwrap().as_seconds());
    assert_eq!(46080, representation.as_ref().unwrap().as_minutes());
    assert_eq!(768, representation.as_ref().unwrap().as_hours());
    assert_eq!(32, representation.as_ref().unwrap().as_days());
}

#[test]
fn from_str_4_m_10_s_will_be_handled_gracefully() {
    let representation = HumanReadableDuration::from_str("4 m 10 s");
    assert_eq!(true, representation.is_err());
}

#[test]
fn from_str_4m_10s_works() {
    let representation = HumanReadableDuration::from_str("4m 10s");
    assert_eq!(true, representation.is_ok());
    assert_eq!(250, representation.as_ref().unwrap().as_seconds());
    assert_eq!(4, representation.as_ref().unwrap().as_minutes());
}

#[test]
fn from_str_4m10s_works() {
    let representation = HumanReadableDuration::from_str("4m10s");
    assert_eq!(true, representation.is_ok());
    assert_eq!(250, representation.as_ref().unwrap().as_seconds());
    assert_eq!(4, representation.as_ref().unwrap().as_minutes());
}

#[test]
fn from_str_3m60s_works() {
    let representation = HumanReadableDuration::from_str("3m60s");
    assert_eq!(true, representation.is_ok());
    assert_eq!(240, representation.as_ref().unwrap().as_seconds());
    assert_eq!(4, representation.as_ref().unwrap().as_minutes());
}

#[test]
fn from_str_3m61s_works() {
    let representation = HumanReadableDuration::from_str("3m61s");
    assert_eq!(true, representation.is_ok());
    assert_eq!(241, representation.as_ref().unwrap().as_seconds());
    assert_eq!(4, representation.as_ref().unwrap().as_minutes());
}
