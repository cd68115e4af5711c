use vstd::prelude::*;

verus! {

/// `solana_program::program_error::ProgramError`, the host's error type.
/// Nothing is read of it: it is carried from the host back to the host.
#[verifier::external_type_specification]
#[verifier::external_body]
pub struct ExProgramError(solana_program::program_error::ProgramError);

/// Why an instruction was aborted.
#[derive(Debug, PartialEq, Eq)]
pub enum TransferError {
    /// The payload is not the fixed eight-byte layout.
    InvalidInstructionData,
    /// Fewer than five accounts were supplied.
    NotEnoughAccountKeys,
    /// The authority account is not the program's derived authority.
    InvalidSeeds,
    /// The source or the mint account does not parse under its layout.
    InvalidAccountData,
    /// The first account is not the token program.
    IncorrectProgramId,
    /// The token program rejected the transfer; its error is kept as it came.
    TransferFailed(solana_program::program_error::ProgramError),
}

} // verus!
