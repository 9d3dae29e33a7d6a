//! The command dispatcher: resolve a handle through the cache, perform
//! the read or write, and report the outcome.
//!
//! The hardware itself is an unverified collaborator. The dispatcher is
//! split at the points where hardware acts: `resolve_begin` decides
//! whether a claim is needed, `resolve_finish` records the outcome of a
//! claim the caller attempted, `operation_for` names the read or write
//! to perform, and `complete_read` / `complete_write` interpret what
//! came back. The caller is expected to hold the cache's exclusive lock
//! from `resolve_begin` through `resolve_finish`, so the existence
//! check and the insertion are atomic with respect to other claimers.
//!
//! `execute` composes the phases into the whole dispatch of one
//! command, with the adapter's answers supplied up front as an
//! [`AdapterScript`]; its contract, [`execute_spec`], is the semantics
//! of one dispatched request.

use vstd::prelude::*;
use crate::cache::{KeyV, LineCache};
use crate::command::{direction_of, command_direction, GpioCmd};
use crate::errors::OpError;
use crate::key::ResourceKey;

verus! {

/// What the cache already holds for a key: an existing handle, or
/// nothing, in which case the line must first be claimed.
#[derive(Clone, Copy, PartialEq, Eq, Structural, Debug)]
pub enum Resolution {
    Hit(u64),
    NeedClaim,
}

/// How a cache state resolves a key.
pub open spec fn resolve_decision(m: Map<KeyV, u64>, k: KeyV) -> Resolution {
    if m.contains_key(k) {
        Resolution::Hit(m[k])
    } else {
        Resolution::NeedClaim
    }
}

/// What the caller's claim attempt came to: the handle it registered,
/// or the error the host answered with.
#[derive(Clone, PartialEq, Eq, Debug)]
pub enum ClaimOutcome {
    Claimed(u64),
    Refused(OpError),
}

/// The hardware operation a command performs on a resolved handle.
#[derive(Clone, Copy, PartialEq, Eq, Structural, Debug)]
pub enum HwRequest {
    /// Read the line's current binary value.
    GetValue(u64),
    /// Drive the line to the given binary value.
    SetValue(u64, u8),
}

/// The identity a command's handle is cached under: writes use the
/// output-claimed handle, reads the input-claimed one.
pub open spec fn key_of(chip: Seq<char>, pin: u32, cmd: GpioCmd) -> KeyV {
    (chip, pin, direction_of(cmd))
}

/// Build the [`ResourceKey`] for a command aimed at (chip, pin).
pub fn key_for(chip: &str, pin: u32, cmd: &GpioCmd) -> (k: ResourceKey)
    ensures
        k@ == key_of(chip@, pin, *cmd),
{
    ResourceKey::new(chip.to_owned(), pin, command_direction(cmd))
}

/// The hit path of resolving: consult the cache, touching nothing.
pub fn resolve_begin(cache: &LineCache, key: &ResourceKey) -> (r: Resolution)
    requires
        cache.wf(),
    ensures
        r == resolve_decision(cache@, key@),
{
    match cache.lookup(key) {
        Some(h) => Resolution::Hit(h),
        None => Resolution::NeedClaim,
    }
}

/// The miss path of resolving: record what the caller's claim attempt
/// came to. A successful claim is inserted and its handle returned; a
/// refused claim propagates the host's error and leaves the cache
/// unchanged, so no partial entry ever appears.
pub fn resolve_finish(cache: &mut LineCache, key: ResourceKey, outcome: ClaimOutcome) -> (r: Result<
    u64,
    OpError,
>)
    requires
        old(cache).wf(),
        !old(cache)@.contains_key(key@),
    ensures
        final(cache).wf(),
        match outcome {
            ClaimOutcome::Claimed(h) => final(cache)@ == old(cache)@.insert(key@, h) && r == Ok::<
                u64,
                OpError,
            >(h),
            ClaimOutcome::Refused(e) => final(cache)@ == old(cache)@ && r == Err::<u64, OpError>(e),
        },
{
    match outcome {
        ClaimOutcome::Claimed(h) => {
            cache.insert(key, h);
            Ok(h)
        },
        ClaimOutcome::Refused(e) => Err(e),
    }
}

/// The operation a command asks of a resolved handle.
pub open spec fn operation_spec(cmd: GpioCmd, handle: u64) -> HwRequest {
    match cmd {
        GpioCmd::In => HwRequest::GetValue(handle),
        GpioCmd::Out { value } => HwRequest::SetValue(handle, if value { 1u8 } else { 0u8 }),
    }
}

/// Executable counterpart of [`operation_spec`]: a write drives the
/// line to 1 for true and 0 for false; a read just reads.
pub fn operation_for(cmd: &GpioCmd, handle: u64) -> (a: HwRequest)
    ensures
        a == operation_spec(*cmd, handle),
{
    match cmd {
        GpioCmd::In => HwRequest::GetValue(handle),
        GpioCmd::Out { value } => HwRequest::SetValue(handle, if *value { 1 } else { 0 }),
    }
}

/// Interpret the outcome of a read: the observed binary value is
/// reported as a present value, a failure verbatim.
pub fn complete_read(outcome: Result<u8, OpError>) -> (r: Result<Option<u8>, OpError>)
    ensures
        match outcome {
            Ok(v) => r == Ok::<Option<u8>, OpError>(Some(v)),
            Err(e) => r == Err::<Option<u8>, OpError>(e),
        },
{
    match outcome {
        Ok(v) => Ok(Some(v)),
        Err(e) => Err(e),
    }
}

/// Interpret the outcome of a write: success carries no value to
/// report, a failure is passed on verbatim.
pub fn complete_write(outcome: Result<(), OpError>) -> (r: Result<Option<u8>, OpError>)
    ensures
        match outcome {
            Ok(_) => r == Ok::<Option<u8>, OpError>(None),
            Err(e) => r == Err::<Option<u8>, OpError>(e),
        },
{
    match outcome {
        Ok(_) => Ok(None),
        Err(e) => Err(e),
    }
}

/// The adapter's answers for one dispatched command, supplied as plain
/// values: what a claim attempt would come to, what a read would
/// observe, and whether a write would succeed. Only the answers the
/// command actually needs are consulted.
#[derive(PartialEq, Eq, Debug)]
pub struct AdapterScript {
    pub claim: ClaimOutcome,
    pub get: Result<u8, OpError>,
    pub set: Result<(), OpError>,
}

/// The result a command's hardware operation comes to under a script.
pub open spec fn outcome_spec(cmd: GpioCmd, hw: AdapterScript) -> Result<Option<u8>, OpError> {
    match cmd {
        GpioCmd::In => match hw.get {
            Ok(v) => Ok(Some(v)),
            Err(e) => Err(e),
        },
        GpioCmd::Out { .. } => match hw.set {
            Ok(_) => Ok(None),
            Err(e) => Err(e),
        },
    }
}

/// The semantics of dispatching one command: the cache afterwards and
/// the reported result. A cached key is reused without consulting the
/// claim answer; an absent key is claimed, and only a successful claim
/// is recorded; a refused claim fails the whole request and changes
/// nothing.
pub open spec fn execute_spec(
    m: Map<KeyV, u64>,
    chip: Seq<char>,
    pin: u32,
    cmd: GpioCmd,
    hw: AdapterScript,
) -> (Map<KeyV, u64>, Result<Option<u8>, OpError>) {
    let k = key_of(chip, pin, cmd);
    if m.contains_key(k) {
        (m, outcome_spec(cmd, hw))
    } else {
        match hw.claim {
            ClaimOutcome::Claimed(h) => (m.insert(k, h), outcome_spec(cmd, hw)),
            ClaimOutcome::Refused(e) => (m, Err(e)),
        }
    }
}

/// Dispatch one command against the cache, with the adapter's answers
/// supplied as a script. This is the whole request path after parsing:
/// compute the key, resolve it through the cache (claiming on a miss),
/// perform the command's operation, and report the outcome.
pub fn execute(
    cache: &mut LineCache,
    chip: &str,
    pin: u32,
    cmd: &GpioCmd,
    hw: AdapterScript,
) -> (r: Result<Option<u8>, OpError>)
    requires
        old(cache).wf(),
    ensures
        final(cache).wf(),
        final(cache)@ == execute_spec(old(cache)@, chip@, pin, *cmd, hw).0,
        r == execute_spec(old(cache)@, chip@, pin, *cmd, hw).1,
{
    let AdapterScript { claim, get, set } = hw;
    let key = key_for(chip, pin, cmd);
    let resolved: Result<u64, OpError> = match resolve_begin(cache, &key) {
        Resolution::Hit(h) => Ok(h),
        Resolution::NeedClaim => resolve_finish(cache, key, claim),
    };
    match resolved {
        Err(e) => Err(e),
        Ok(_handle) => match cmd {
            GpioCmd::In => complete_read(get),
            GpioCmd::Out { .. } => complete_write(set),
        },
    }
}

} // verus!
