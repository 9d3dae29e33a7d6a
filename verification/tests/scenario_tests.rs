//! The whole request path driven against a recording test double.

use http_gpio::cache::LineCache;
use http_gpio::command::{Direction, GpioCmd};
use http_gpio::dispatch::{
    key_for, operation_for, resolve_begin, resolve_finish, ClaimOutcome, HwRequest, Resolution,
};
use http_gpio::edge::screen_request;
use http_gpio::errors::{ErrorKind, OpError};
use http_gpio::reply::as_reply;

/// A stand-in adapter: it records every claim and every driven value,
/// and refuses to claim a pin that is already claimed — in either
/// direction — without a release.
struct RecordingAdapter {
    claims: Vec<(String, u32, Direction)>,
    set_calls: Vec<(u64, u8)>,
}

impl RecordingAdapter {
    fn new() -> RecordingAdapter {
        RecordingAdapter { claims: Vec::new(), set_calls: Vec::new() }
    }

    fn claim(&mut self, chip: &str, pin: u32, dir: Direction) -> ClaimOutcome {
        if self.claims.iter().any(|(c, p, _)| c.as_str() == chip && *p == pin) {
            ClaimOutcome::Refused(OpError::new(
                ErrorKind::Claim,
                format!("line {} of {} is already claimed", pin, chip),
            ))
        } else {
            self.claims.push((String::from(chip), pin, dir));
            ClaimOutcome::Claimed(self.claims.len() as u64 - 1)
        }
    }
}

/// One POST /gpio/{chip}/{pin}, with the body already parsed (or not)
/// by the edge, run through screening, dispatch and reply mapping.
fn post(
    cache: &mut LineCache,
    adapter: &mut RecordingAdapter,
    chip: &str,
    pin: u32,
    body_len: usize,
    parsed: Option<GpioCmd>,
) -> Result<(u16, String), ()> {
    let cmd = match screen_request(body_len, parsed) {
        Ok(cmd) => cmd,
        Err(_) => return Err(()),
    };
    let key = key_for(chip, pin, &cmd);
    let resolved = match resolve_begin(cache, &key) {
        Resolution::Hit(h) => Ok(h),
        Resolution::NeedClaim => {
            let outcome = adapter.claim(chip, pin, key.dir);
            resolve_finish(cache, key, outcome)
        },
    };
    let result = match resolved {
        Err(e) => Err(e),
        Ok(handle) => match operation_for(&cmd, handle) {
            HwRequest::SetValue(h, level) => {
                adapter.set_calls.push((h, level));
                Ok(None)
            },
            HwRequest::GetValue(_) => Ok(Some(0)),
        },
    };
    let reply = as_reply(result);
    Ok((reply.status, reply.body))
}

#[test]
fn write_claims_once_and_succeeds() {
    let mut cache = LineCache::new();
    let mut adapter = RecordingAdapter::new();

    let body = r#"{"Out":{"value":true}}"#;
    let (status, text) = post(
        &mut cache,
        &mut adapter,
        "gpiochip0",
        17,
        body.len(),
        Some(GpioCmd::Out { value: true }),
    )
    .unwrap();

    assert_eq!(adapter.claims, vec![(String::from("gpiochip0"), 17, Direction::Output)]);
    assert_eq!(adapter.set_calls, vec![(0, 1)]);
    assert_eq!(status, 200);
    assert_eq!(text, "Success");
}

#[test]
fn read_after_write_needs_a_fresh_claim_and_may_be_refused() {
    let mut cache = LineCache::new();
    let mut adapter = RecordingAdapter::new();

    let out_body = r#"{"Out":{"value":true}}"#;
    let (status, _) = post(
        &mut cache,
        &mut adapter,
        "gpiochip0",
        17,
        out_body.len(),
        Some(GpioCmd::Out { value: true }),
    )
    .unwrap();
    assert_eq!(status, 200);

    // The read uses a key differing in direction, so it triggers a
    // fresh claim attempt; the double refuses to re-claim the pin, and
    // the refusal surfaces as a server error instead of silently
    // reusing the output handle.
    let in_body = r#""In""#;
    let (status, text) =
        post(&mut cache, &mut adapter, "gpiochip0", 17, in_body.len(), Some(GpioCmd::In)).unwrap();
    assert_eq!(adapter.claims.len(), 1);
    assert_eq!(status, 500);
    assert!(text.contains("already claimed"));
}

#[test]
fn oversized_body_never_reaches_the_dispatcher() {
    let mut cache = LineCache::new();
    let mut adapter = RecordingAdapter::new();

    let r = post(
        &mut cache,
        &mut adapter,
        "gpiochip0",
        17,
        1025,
        Some(GpioCmd::Out { value: true }),
    );
    assert_eq!(r, Err(()));
    // The spy saw neither a claim nor an operation, and no cache entry
    // was created.
    assert!(adapter.claims.is_empty());
    assert!(adapter.set_calls.is_empty());
    let key = key_for("gpiochip0", 17, &GpioCmd::Out { value: true });
    assert_eq!(resolve_begin(&cache, &key), Resolution::NeedClaim);
}
