use vstd::prelude::*;

verus! {

/// The runtime's error type, carried through unchanged.
#[verifier::external_type_specification]
#[verifier::external_body]
pub struct ExProgramError(anchor_lang::prelude::ProgramError);

/// Reads the clock sysvar through `Clock::get` of the runtime and hands back
/// its `unix_timestamp`, or the error that the read gave. The result depends
/// on the moment and the machine, so nothing is promised of it.
#[verifier::external_body]
pub(crate) fn clock_unix_timestamp() -> (r: Result<i64, anchor_lang::prelude::ProgramError>) {
    match <anchor_lang::prelude::Clock as anchor_lang::prelude::SolanaSysvar>::get() {
        Ok(clock) => Ok(clock.unix_timestamp),
        Err(e) => Err(e),
    }
}

} // verus!
