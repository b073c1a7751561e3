use mod_logger::record::{format_record, paint_for_level};
use mod_logger::timestamp::{decimal, format_timestamp, format_year, timestamp_prefix, zero_pad, LocalTime};
use mod_logger::{Error, ErrorKind, Level, LogErrCtx, LogErrorKind};

#[test]
fn format_record_layout() {
    assert_eq!(format_record("", Level::Info, "a::b", "hello", false), "INFO  [a::b] hello\n");
    assert_eq!(format_record("T ", Level::Info, "a::b", "hello", true), "T INFO  hello\n");
    assert_eq!(format_record("", Level::Error, "m", "x", true), "ERROR [m] x\n");
    assert_eq!(format_record("", Level::Warn, "", "", false), "WARN  [] \n");
}

#[test]
fn painting_forced_on_and_off() {
    colored::control::set_override(true);
    assert_eq!(paint_for_level("x", Level::Error), "\x1b[31mx\x1b[0m");
    assert_eq!(paint_for_level("x", Level::Warn), "\x1b[33mx\x1b[0m");
    assert_eq!(paint_for_level("x", Level::Info), "\x1b[32mx\x1b[0m");
    assert_eq!(paint_for_level("x", Level::Debug), "\x1b[36mx\x1b[0m");
    assert_eq!(paint_for_level("x", Level::Trace), "\x1b[34mx\x1b[0m");
    colored::control::set_override(false);
    assert_eq!(paint_for_level("x", Level::Error), "x");
    colored::control::unset_override();
}

#[test]
fn timestamps() {
    assert_eq!(timestamp_prefix(false, true), "");
    let t = timestamp_prefix(true, false);
    assert_eq!(t.len(), 20);
    assert!(t.ends_with(' '));
    assert_eq!(&t[4..5], "-");
    let t = timestamp_prefix(true, true);
    assert_eq!(t.len(), 24);
    assert_eq!(&t[19..20], ".");
}

#[test]
fn error_text() {
    let e = Error::new(ErrorKind::InvState);
    assert_eq!(e.to_string(), "An invalid state was encountered");
    assert!(e.context().is_none() && e.cause().is_none());
    let inner = Error::with_context(ErrorKind::InvParam, "bad");
    let outer = Error::from_upstream(inner, "loading");
    assert_eq!(outer.kind(), ErrorKind::Upstream);
    assert_eq!(outer.context(), Some("loading"));
    assert_eq!(outer.cause().unwrap().kind(), ErrorKind::InvParam);
    assert_eq!(
        outer.to_string(),
        "An error occurred in an upstream function, context: loading\n  caused by: An invalid parameter was encountered, context: bad"
    );
    let e = Error::with_all(ErrorKind::InvParam, "c", Box::new(Error::new(ErrorKind::InvState)));
    assert_eq!(e.kind(), ErrorKind::InvParam);
    let e = Error::with_cause(ErrorKind::Upstream, Box::new(Error::new(ErrorKind::InvState)));
    assert!(e.context().is_none());
    assert_eq!(
        e.to_string(),
        "An error occurred in an upstream function\n  caused by: An invalid state was encountered"
    );
    let e = Error::from_upstream_error(Box::new(Error::new(ErrorKind::InvParam)), "ctx");
    assert_eq!(e.kind(), ErrorKind::Upstream);
}

#[test]
fn nested_cause_text() {
    let c = Error::with_cause(ErrorKind::InvParam, Box::new(Error::new(ErrorKind::InvState)));
    let e = Error::with_cause(ErrorKind::Upstream, Box::new(c));
    assert_eq!(
        e.to_string(),
        "An error occurred in an upstream function\n  caused by: An invalid parameter was encountered\n  caused by: An invalid state was encountered\n  caused by: An invalid state was encountered"
    );
}

#[test]
fn log_err_ctx_text() {
    let c = LogErrCtx::from_remark(LogErrorKind::InvParam, "bad value");
    assert_eq!(c.kind(), LogErrorKind::InvParam);
    assert_eq!(c.to_string(), "Error: An invalid value was encountered, bad value");
    let c = LogErrCtx::from_kind(LogErrorKind::Upstream);
    assert_eq!(c.to_string(), "Error: An error occured in an upstream function");
}

fn at(year: i32, second: u32, nanosecond: u32) -> LocalTime {
    LocalTime { year, month: 3, day: 5, hour: 7, minute: 8, second, nanosecond }
}

#[test]
fn timestamp_text_exact() {
    let t = at(2024, 9, 45_000_000);
    assert_eq!(format_timestamp(&t, false), "2024-03-05 07:08:09 ");
    assert_eq!(format_timestamp(&t, true), "2024-03-05 07:08:09.045 ");
    let t = LocalTime { year: 1999, month: 12, day: 31, hour: 23, minute: 59, second: 59, nanosecond: 999_999_999 };
    assert_eq!(format_timestamp(&t, true), "1999-12-31 23:59:59.999 ");
}

#[test]
fn timestamp_leap_second() {
    assert_eq!(format_timestamp(&at(2016, 59, 1_500_000_000), true), "2016-03-05 07:08:60.500 ");
}

#[test]
fn timestamp_years_out_of_four_digits() {
    assert_eq!(format_year(987), "0987");
    assert_eq!(format_year(0), "0000");
    assert_eq!(format_year(12345), "+12345");
    assert_eq!(format_year(-5), "-0005");
    assert_eq!(format_year(-12345), "-12345");
    assert_eq!(format_year(i32::MIN), "-2147483648");
}

#[test]
fn decimal_digits() {
    assert_eq!(decimal(0), "0");
    assert_eq!(decimal(1234567890), "1234567890");
    assert_eq!(decimal(u64::MAX), u64::MAX.to_string());
    assert_eq!(zero_pad(7, 3), "007");
    assert_eq!(zero_pad(12345, 2), "12345");
    assert_eq!(zero_pad(5, 0), "5");
}
