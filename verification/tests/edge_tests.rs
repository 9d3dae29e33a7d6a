use http_gpio::command::GpioCmd;
use http_gpio::edge::{api_info, screen_request, MAX_BODY_BYTES};
use http_gpio::errors::RequestError;

#[test]
fn body_at_the_cap_is_admitted() {
    assert_eq!(MAX_BODY_BYTES, 1024);
    let r = screen_request(1024, Some(GpioCmd::In));
    assert_eq!(r, Ok(GpioCmd::In));
}

#[test]
fn body_over_the_cap_is_rejected() {
    let r = screen_request(1025, Some(GpioCmd::Out { value: true }));
    assert_eq!(r, Err(RequestError::BodyTooLarge));
}

#[test]
fn oversized_body_is_rejected_before_parsing_matters() {
    // Even an unparseable oversized body reports the size problem.
    let r = screen_request(4096, None);
    assert_eq!(r, Err(RequestError::BodyTooLarge));
}

#[test]
fn unparseable_body_within_the_cap_is_malformed() {
    let r = screen_request(10, None);
    assert_eq!(r, Err(RequestError::MalformedBody));
}

#[test]
fn api_root_serves_the_fixed_text() {
    assert_eq!(api_info(), "This is the GPIO API");
}
