use vstd::prelude::*;
use solana_program::program_error::ProgramError;
use crate::address::Address;
use crate::authority::{authorize, authorized, program_address, AUTHORITY_SEED};
use crate::error::TransferError;
use crate::instructions::{decoded, TransferIx, PAYLOAD_BYTES};
use crate::transfer::{
    build_transfer, invocation_view, prepared, AccountRef, SignedInvocation, SignedInvocationView,
    ACCOUNTS_REQUIRED, AUTHORITY_ACCOUNT,
};

verus! {

/// What processing an instruction comes to.
///
/// The payload is decoded first, then the account list is counted, then the
/// authority account is held against the program's derived authority, and
/// only then is the transfer prepared. The first step that fails decides the
/// error, and no call is made.
pub open spec fn processed(program_id: Seq<u8>, accounts: Seq<AccountRef>, ix_data: Seq<u8>) -> Result<
    SignedInvocationView,
    TransferError,
> {
    match decoded(ix_data) {
        None => Err(TransferError::InvalidInstructionData),
        Some(request) => if accounts.len() < ACCOUNTS_REQUIRED {
            Err(TransferError::NotEnoughAccountKeys)
        } else {
            match authorized(program_id, accounts[AUTHORITY_ACCOUNT as int].key@) {
                None => Err(TransferError::InvalidSeeds),
                Some(authority) => prepared(accounts, authority, request.amount),
            }
        },
    }
}

/// Processes one instruction of the program `program_id`: returns the call
/// that the host is to invoke under the program's authority, or the error
/// that aborts the instruction.
pub fn process_instruction(program_id: &Address, accounts: &[AccountRef], ix_data: &[u8]) -> (res:
    Result<SignedInvocation, TransferError>)
    ensures
        invocation_view(res) == processed(program_id@, accounts@, ix_data@),
{
    let request = match TransferIx::unpack(ix_data) {
        Ok(request) => request,
        Err(error) => {
            return Err(error);
        },
    };
    if accounts.len() < ACCOUNTS_REQUIRED {
        return Err(TransferError::NotEnoughAccountKeys);
    }
    let authority = match authorize(program_id, &accounts[AUTHORITY_ACCOUNT].key) {
        Ok(authority) => authority,
        Err(error) => {
            return Err(error);
        },
    };
    build_transfer(accounts, &authority, request.amount)
}

/// Turns what the host reports of the invoked call into the instruction's
/// result: committed, or aborted with the token program's error.
pub fn settle(outcome: Result<(), ProgramError>) -> (res: Result<(), TransferError>)
    ensures
        res == match outcome {
            Ok(_) => Ok::<(), TransferError>(()),
            Err(error) => Err::<(), TransferError>(TransferError::TransferFailed(error)),
        },
{
    match outcome {
        Ok(_) => Ok(()),
        Err(error) => Err(TransferError::TransferFailed(error)),
    }
}

/// A payload of any length but eight aborts the instruction with
/// `InvalidInstructionData`, whatever the accounts are and however many.
pub proof fn lemma_malformed_payload_is_refused(
    program_id: Seq<u8>,
    accounts: Seq<AccountRef>,
    ix_data: Seq<u8>,
)
    requires
        ix_data.len() != PAYLOAD_BYTES,
    ensures
        processed(program_id, accounts, ix_data) == Err::<SignedInvocationView, TransferError>(
            TransferError::InvalidInstructionData,
        ),
{
}

/// Once the payload decodes and five accounts are there, an authority
/// account that is not the program's derived authority aborts the
/// instruction with `InvalidSeeds`, whatever the other accounts hold: no call
/// is handed to the host.
pub proof fn lemma_foreign_authority_is_refused(
    program_id: Seq<u8>,
    accounts: Seq<AccountRef>,
    ix_data: Seq<u8>,
)
    requires
        ix_data.len() == PAYLOAD_BYTES,
        accounts.len() >= ACCOUNTS_REQUIRED,
        match program_address(AUTHORITY_SEED@, program_id) {
            Some((address, _)) => address != accounts[AUTHORITY_ACCOUNT as int].key@,
            None => true,
        },
    ensures
        processed(program_id, accounts, ix_data) == Err::<SignedInvocationView, TransferError>(
            TransferError::InvalidSeeds,
        ),
{
}

/// A call is returned only under the program's own authority: the authority
/// account is the derived address, which signs the transfer, and the seeds
/// are those of that derivation.
pub proof fn lemma_only_derived_authority_signs(
    program_id: Seq<u8>,
    accounts: Seq<AccountRef>,
    ix_data: Seq<u8>,
)
    requires
        processed(program_id, accounts, ix_data) is Ok,
    ensures
        ix_data.len() == PAYLOAD_BYTES,
        accounts.len() >= ACCOUNTS_REQUIRED,
        program_address(AUTHORITY_SEED@, program_id) matches Some((address, bump)) && {
            let invocation = processed(program_id, accounts, ix_data).unwrap();
            &&& address == accounts[AUTHORITY_ACCOUNT as int].key@
            &&& invocation.instruction.accounts.len() == 4
            &&& invocation.instruction.accounts[3].key == address
            &&& invocation.instruction.accounts[3].is_signer
            &&& forall|i: int| 0 <= i < 3 ==> !invocation.instruction.accounts[i].is_signer
            &&& invocation.signer_seeds == seq![AUTHORITY_SEED@, seq![bump]]
        },
{
}

} // verus!
