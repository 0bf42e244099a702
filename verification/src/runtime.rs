use vstd::prelude::*;
use anchor_lang::solana_program::clock::Clock;
use anchor_lang::solana_program::program_error::ProgramError;
use anchor_lang::solana_program::pubkey::Pubkey;
use anchor_lang::solana_program::sysvar::Sysvar;

verus! {

/// An account address; the library carries it and never looks inside.
#[verifier::external_type_specification]
#[verifier::external_body]
pub struct ExPubkey(Pubkey);

/// An error that the runtime reports; the library carries it and never looks inside.
#[verifier::external_type_specification]
#[verifier::external_body]
pub struct ExProgramError(ProgramError);

/// Reads the cluster clock with `Clock::get` (`solana_program::sysvar::Sysvar::get`)
/// and hands back its `unix_timestamp`, or the runtime's error.
/// What comes back depends on the cluster (off-chain, the default syscall stubs
/// report an unsupported sysvar), so nothing is stated of it.
#[verifier::external_body]
pub(crate) fn clock_unix_timestamp() -> (r: Result<i64, ProgramError>) {
    match Clock::get() {
        Ok(clock) => Ok(clock.unix_timestamp),
        Err(e) => Err(e),
    }
}

} // verus!
