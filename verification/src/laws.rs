//! The library's guarantees, stated and proved over the dispatch
//! semantics [`execute_spec`] and the cache model.

use vstd::prelude::*;
use crate::cache::KeyV;
use crate::command::GpioCmd;
use crate::dispatch::{
    execute_spec, key_of, resolve_decision, AdapterScript, ClaimOutcome, Resolution,
};
use crate::edge::{screen_spec, MAX_BODY_BYTES};
use crate::errors::{OpError, RequestError};

verus! {

/// Single-claim: once a key is cached, a dispatch for it resolves to a
/// hit on the cached handle and leaves the cache unchanged, whatever
/// the adapter would have answered — so the underlying line is never
/// claimed a second time for that key.
pub proof fn lemma_single_claim(
    m: Map<KeyV, u64>,
    chip: Seq<char>,
    pin: u32,
    cmd: GpioCmd,
    hw: AdapterScript,
)
    requires
        m.contains_key(key_of(chip, pin, cmd)),
    ensures
        resolve_decision(m, key_of(chip, pin, cmd)) == Resolution::Hit(m[key_of(chip, pin, cmd)]),
        execute_spec(m, chip, pin, cmd, hw).0 == m,
{
}

/// A cached entry survives any dispatch, for any key: once a handle is
/// recorded for a key it is never replaced or dropped, so every later
/// resolve of that key yields the same handle.
pub proof fn lemma_handle_stable(
    m: Map<KeyV, u64>,
    chip: Seq<char>,
    pin: u32,
    cmd: GpioCmd,
    hw: AdapterScript,
    k: KeyV,
    h: u64,
)
    requires
        m.contains_key(k),
        m[k] == h,
    ensures
        execute_spec(m, chip, pin, cmd, hw).0.contains_key(k),
        execute_spec(m, chip, pin, cmd, hw).0[k] == h,
{
}

/// Isolation: a dispatch aimed at one key neither creates, removes,
/// nor changes the cache entry of any other key.
pub proof fn lemma_isolation(
    m: Map<KeyV, u64>,
    chip: Seq<char>,
    pin: u32,
    cmd: GpioCmd,
    hw: AdapterScript,
    other: KeyV,
)
    requires
        other != key_of(chip, pin, cmd),
    ensures
        execute_spec(m, chip, pin, cmd, hw).0.contains_key(other) == m.contains_key(other),
        m.contains_key(other) ==> execute_spec(m, chip, pin, cmd, hw).0[other] == m[other],
{
}

/// A write the hardware accepts reports success with nothing to carry,
/// provided its handle resolved (the key was cached, or the claim
/// succeeded).
pub proof fn lemma_write_returns_no_value(
    m: Map<KeyV, u64>,
    chip: Seq<char>,
    pin: u32,
    value: bool,
    hw: AdapterScript,
)
    requires
        m.contains_key(key_of(chip, pin, GpioCmd::Out { value })) || hw.claim is Claimed,
        hw.set is Ok,
    ensures
        execute_spec(m, chip, pin, GpioCmd::Out { value }, hw).1 == Ok::<Option<u8>, OpError>(None),
{
}

/// A read reports exactly the binary state the hardware observed,
/// provided its handle resolved.
pub proof fn lemma_read_returns_observed(
    m: Map<KeyV, u64>,
    chip: Seq<char>,
    pin: u32,
    hw: AdapterScript,
    v: u8,
)
    requires
        m.contains_key(key_of(chip, pin, GpioCmd::In)) || hw.claim is Claimed,
        hw.get == Ok::<u8, OpError>(v),
    ensures
        execute_spec(m, chip, pin, GpioCmd::In, hw).1 == Ok::<Option<u8>, OpError>(Some(v)),
{
}

/// Failure propagation: when the claim for an uncached key is refused,
/// the dispatch fails with the adapter's error verbatim and no cache
/// entry is created.
pub proof fn lemma_claim_failure(
    m: Map<KeyV, u64>,
    chip: Seq<char>,
    pin: u32,
    cmd: GpioCmd,
    hw: AdapterScript,
    e: OpError,
)
    requires
        !m.contains_key(key_of(chip, pin, cmd)),
        hw.claim == ClaimOutcome::Refused(e),
    ensures
        execute_spec(m, chip, pin, cmd, hw).0 == m,
        execute_spec(m, chip, pin, cmd, hw).1 == Err::<Option<u8>, OpError>(e),
{
}

/// Body size rejection: a body over the cap is turned away at the
/// edge, whatever it would have parsed to, so the dispatcher is never
/// consulted for it.
pub proof fn lemma_oversized_body_rejected(body_len: usize, parsed: Option<GpioCmd>)
    requires
        body_len > MAX_BODY_BYTES,
    ensures
        screen_spec(body_len, parsed) == Err::<GpioCmd, RequestError>(RequestError::BodyTooLarge),
{
}

} // verus!
