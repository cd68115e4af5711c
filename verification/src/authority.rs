use vstd::prelude::*;
use crate::address::Address;
use crate::error::TransferError;

verus! {

/// The seed label of the program's authority: the ASCII bytes of `authority`.
pub const AUTHORITY_SEED: [u8; 9] = [0x61, 0x75, 0x74, 0x68, 0x6f, 0x72, 0x69, 0x74, 0x79];

/// The program-derived address that the host's derivation finds for one seed
/// label under a program, with the bump seed that it found it at; `None`
/// where the search finds none.
pub uninterp spec fn program_address(seed: Seq<u8>, program_id: Seq<u8>) -> Option<(Seq<u8>, u8)>;

/// A program-controlled address together with the bump seed that proves it.
#[derive(Clone, Copy, Debug, PartialEq, Eq)]
pub struct DerivedAuthority {
    pub address: Address,
    pub bump: u8,
}

impl View for DerivedAuthority {
    type V = (Seq<u8>, u8);

    open spec fn view(&self) -> (Seq<u8>, u8) {
        (self.address@, self.bump)
    }
}

/// What a derivation returned, as plain values.
pub open spec fn derivation_view(derived: Option<DerivedAuthority>) -> Option<(Seq<u8>, u8)> {
    match derived {
        Some(authority) => Some(authority@),
        None => None,
    }
}

/// Calls `solana_program::pubkey::Pubkey::try_find_program_address` with a
/// single seed.
///
/// Trusted, not proved: what comes back depends on the seed and the program
/// alone, so it is `program_address` of the two. Nothing more is claimed of
/// the address or the bump.
#[verifier::external_body]
fn try_find_program_address(seed: &[u8], program_id: &Address) -> (res: Option<DerivedAuthority>)
    ensures
        derivation_view(res) == program_address(seed@, program_id@),
{
    let program = solana_program::pubkey::Pubkey::new_from_array(program_id.bytes);
    solana_program::pubkey::Pubkey::try_find_program_address(&[seed], &program)
        .map(|(key, bump)| DerivedAuthority { address: Address { bytes: key.to_bytes() }, bump })
}

/// Derives the address that a program controls under a seed label.
pub fn derive_address(program_id: &Address, seed: &[u8]) -> (res: Option<DerivedAuthority>)
    ensures
        derivation_view(res) == program_address(seed@, program_id@),
{
    try_find_program_address(seed, program_id)
}

/// Accepts a candidate authority only if it is the derived address.
pub fn verify(candidate: &Address, derived: &Address) -> (res: Result<(), TransferError>)
    ensures
        candidate@ == derived@ ==> res == Ok::<(), TransferError>(()),
        candidate@ != derived@ ==> res == Err::<(), TransferError>(TransferError::InvalidSeeds),
{
    if candidate.same_as(derived) {
        Ok(())
    } else {
        Err(TransferError::InvalidSeeds)
    }
}

/// The authority that a program may sign for, if the candidate is that one:
/// the derivation under `AUTHORITY_SEED` exists and gives the candidate.
pub open spec fn authorized(program_id: Seq<u8>, candidate: Seq<u8>) -> Option<(Seq<u8>, u8)> {
    match program_address(AUTHORITY_SEED@, program_id) {
        Some((address, bump)) => if address == candidate {
            Some((address, bump))
        } else {
            None
        },
        None => None,
    }
}

/// Recomputes the program's authority and checks the candidate against it.
pub fn authorize(program_id: &Address, candidate: &Address) -> (res: Result<
    DerivedAuthority,
    TransferError,
>)
    ensures
        match authorized(program_id@, candidate@) {
            Some(expected) => res matches Ok(authority) && authority@ == expected,
            None => res == Err::<DerivedAuthority, TransferError>(TransferError::InvalidSeeds),
        },
{
    let seed = AUTHORITY_SEED;
    match derive_address(program_id, seed.as_slice()) {
        Some(authority) => match verify(candidate, &authority.address) {
            Ok(()) => Ok(authority),
            Err(error) => Err(error),
        },
        None => Err(TransferError::InvalidSeeds),
    }
}

/// Derivation is a function of the seed label and the program alone: any two
/// results for the same label and program are the same address and bump.
pub proof fn lemma_derivation_is_deterministic(
    seed: Seq<u8>,
    program_id: Seq<u8>,
    first: Option<DerivedAuthority>,
    second: Option<DerivedAuthority>,
)
    requires
        derivation_view(first) == program_address(seed, program_id),
        derivation_view(second) == program_address(seed, program_id),
    ensures
        first == second,
{
    if let Some(one) = first {
        let other = second.unwrap();
        assert(one.address.bytes@ == other.address.bytes@);
        assert(one.address.bytes =~= other.address.bytes);
    }
}

} // verus!
