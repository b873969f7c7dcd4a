//! Decision logic of the compile-and-run pipeline.
//!
//! One save request runs: validate the bundle and assemble the compilation
//! unit (`prepare_submission`), then — outside this library — compile the
//! unit and spawn the artifact, then hand the spawn outcome back to
//! `finish_submission`, which installs the new handle and returns the old
//! one for termination, or reports the failure with the slot untouched.
//! A kill request runs `terminate_current` and then, once the outside kill
//! attempt is done, `conclude_termination`.

use vstd::prelude::*;

use crate::bundle::SourceBundle;
use crate::slot::ProcessHandle;
use crate::slot::ProcessSlot;

verus! {

/// Why a save request failed.
#[derive(Debug, Clone, PartialEq, Eq)]
pub enum CompileError {
    /// The bundle carries no entry-point file: the request's shape is
    /// invalid, a client fault.
    MissingEntryPoint,
    /// The entry point was present but compiling or spawning it failed; the
    /// detail carries the toolchain's diagnostic text verbatim.
    CompileFailed(String),
}

/// An explicit kill of a tracked process failed.
#[derive(Debug, Clone, Copy, PartialEq, Eq, Structural)]
pub struct TerminationError;

/// The name of the required entry-point file.
pub open spec fn entry_point_name() -> Seq<char> {
    "main.ts"@
}

/// The name of the required entry-point file, as a value a caller can put
/// into a bundle.
pub fn entry_point_file() -> (r: String)
    ensures
        r@ == entry_point_name(),
{
    "main.ts".to_owned()
}

/// The compilation unit built from the entry-point text: the text handed on
/// as-is.
pub open spec fn assembled_unit(text: Seq<char>) -> Seq<char> {
    text
}

/// Builds the full compilation unit from the entry-point text: a pure,
/// non-failing transform.
pub fn assemble_main(text: &String) -> (r: String)
    ensures
        r@ == assembled_unit(text@),
{
    text.clone()
}

/// Validates a save request and assembles its compilation unit: the
/// entry-point file must be present, else the request fails with
/// `MissingEntryPoint` — and, taking no slot at all, leaves the running
/// process untouched.
pub fn prepare_submission(bundle: &SourceBundle) -> (r: Result<String, CompileError>)
    ensures
        bundle@.contains_key(entry_point_name()) ==> (r matches Ok(unit) && unit@
            == assembled_unit(bundle@[entry_point_name()])),
        !bundle@.contains_key(entry_point_name()) ==> r == Err::<String, CompileError>(
            CompileError::MissingEntryPoint,
        ),
{
    let needle = entry_point_file();
    match bundle.lookup(&needle) {
        Some(text) => Ok(assemble_main(text)),
        None => Err(CompileError::MissingEntryPoint),
    }
}

/// Concludes a save request from the outcome of the outside compile-and-spawn
/// work. A spawned handle is installed, and the previous occupant — if any —
/// is returned for the caller to terminate, only now that the new process
/// stands in the slot. Any failure is reported as `CompileFailed` with the
/// diagnostic text, and the slot, and so the previously running process, is
/// left exactly as it was.
pub fn finish_submission(slot: &mut ProcessSlot, spawned: Result<ProcessHandle, String>) -> (r:
    Result<Option<ProcessHandle>, CompileError>)
    ensures
        match spawned {
            Ok(h) => final(slot)@ == Some(h) && r == Ok::<Option<ProcessHandle>, CompileError>(
                old(slot)@,
            ),
            Err(detail) => final(slot)@ == old(slot)@ && r == Err::<
                Option<ProcessHandle>,
                CompileError,
            >(CompileError::CompileFailed(detail)),
        },
{
    match spawned {
        Ok(h) => Ok(slot.install(h)),
        Err(detail) => Err(CompileError::CompileFailed(detail)),
    }
}

/// Begins a kill request: atomically removes the current handle, if any, and
/// hands it to the caller for termination. The slot is empty afterwards, so
/// killing when nothing is running finds nothing to do.
pub fn terminate_current(slot: &mut ProcessSlot) -> (victim: Option<ProcessHandle>)
    ensures
        final(slot)@ is None,
        victim == old(slot)@,
{
    slot.take()
}

/// Concludes a kill request from the outcome of the outside kill attempt:
/// with no victim there was nothing to do and the request succeeds — killing
/// an empty slot is not an error — and with one, the request succeeds exactly
/// when the kill did.
pub fn conclude_termination(victim: Option<ProcessHandle>, kill_succeeded: bool) -> (r: Result<
    (),
    TerminationError,
>)
    ensures
        victim is None || kill_succeeded ==> r == Ok::<(), TerminationError>(()),
        victim is Some && !kill_succeeded ==> r == Err::<(), TerminationError>(TerminationError),
{
    match victim {
        None => Ok(()),
        Some(_) => if kill_succeeded {
            Ok(())
        } else {
            Err(TerminationError)
        },
    }
}

} // verus!
