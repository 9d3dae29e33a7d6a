use http_gpio::errors::{ErrorKind, OpError};
use http_gpio::reply::{as_reply, u8_to_decimal};

#[test]
fn decimal_rendering_is_exact() {
    assert_eq!(u8_to_decimal(0), "0");
    assert_eq!(u8_to_decimal(1), "1");
    assert_eq!(u8_to_decimal(9), "9");
    assert_eq!(u8_to_decimal(10), "10");
    assert_eq!(u8_to_decimal(42), "42");
    assert_eq!(u8_to_decimal(100), "100");
    assert_eq!(u8_to_decimal(255), "255");
}

#[test]
fn success_without_value() {
    let r = as_reply(Ok(None));
    assert_eq!(r.status, 200);
    assert_eq!(r.body, "Success");
}

#[test]
fn success_with_value() {
    let r = as_reply(Ok(Some(1)));
    assert_eq!(r.status, 200);
    assert_eq!(r.body, "Success, value: 1");

    let r = as_reply(Ok(Some(0)));
    assert_eq!(r.status, 200);
    assert_eq!(r.body, "Success, value: 0");
}

#[test]
fn failure_is_a_server_error_with_the_description() {
    let e = OpError::new(ErrorKind::Claim, String::from("Device or resource busy"));
    let r = as_reply(Err(e));
    assert_eq!(r.status, 500);
    assert_eq!(r.body, "Device or resource busy");
}

#[test]
fn describe_reports_the_message_verbatim() {
    let e = OpError::new(ErrorKind::Io, String::from("unexpected ioctl failure"));
    assert_eq!(e.describe(), "unexpected ioctl failure");
    assert_eq!(e.kind, ErrorKind::Io);
}
