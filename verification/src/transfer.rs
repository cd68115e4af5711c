use vstd::prelude::*;
use solana_program::program_error::ProgramError;
use solana_program::program_pack::Pack;
use solana_program::pubkey::Pubkey;
use crate::address::Address;
use crate::authority::{DerivedAuthority, AUTHORITY_SEED};
use crate::error::TransferError;
use crate::instructions::le_bytes;

verus! {

/// Number of accounts that an instruction names.
pub const ACCOUNTS_REQUIRED: usize = 5;

/// Place of the token program in the account list.
pub const TOKEN_PROGRAM_ACCOUNT: usize = 0;

/// Place of the source token account in the account list.
pub const SOURCE_ACCOUNT: usize = 1;

/// Place of the mint in the account list.
pub const MINT_ACCOUNT: usize = 2;

/// Place of the destination token account in the account list.
pub const DESTINATION_ACCOUNT: usize = 3;

/// Place of the authority in the account list.
pub const AUTHORITY_ACCOUNT: usize = 4;

/// Address of the token program.
pub const TOKEN_PROGRAM_ID: [u8; 32] = [
    0x06, 0xdd, 0xf6, 0xe1, 0xd7, 0x65, 0xa1, 0x93, 0xd9, 0xcb, 0xe1, 0x46, 0xce, 0xeb, 0x79, 0xac,
    0x1c, 0xb4, 0x85, 0xed, 0x5f, 0x5b, 0x37, 0x91, 0x3a, 0x8c, 0xf5, 0x85, 0x7e, 0xff, 0x00, 0xa9,
];

/// Tag of the decimals-checked transfer among the token program's instructions.
pub const TRANSFER_CHECKED_TAG: u8 = 12;

/// One account as the host lends it for an instruction: its address and a
/// copy of its data.
#[derive(Clone, Debug, PartialEq, Eq)]
pub struct AccountRef {
    pub key: Address,
    pub data: Vec<u8>,
}

/// How an invoked program may use one account.
#[derive(Clone, Copy, Debug, PartialEq, Eq)]
pub struct AccountMeta {
    pub key: Address,
    pub is_signer: bool,
    pub is_writable: bool,
}

/// An account's use, as plain values.
pub struct AccountMetaView {
    pub key: Seq<u8>,
    pub is_signer: bool,
    pub is_writable: bool,
}

impl View for AccountMeta {
    type V = AccountMetaView;

    open spec fn view(&self) -> AccountMetaView {
        AccountMetaView { key: self.key@, is_signer: self.is_signer, is_writable: self.is_writable }
    }
}

/// A call of another program: which program, on which accounts, with what data.
#[derive(Clone, Debug, PartialEq, Eq)]
pub struct Instruction {
    pub program_id: Address,
    pub accounts: Vec<AccountMeta>,
    pub data: Vec<u8>,
}

/// A call of another program, as plain values.
pub struct InstructionView {
    pub program_id: Seq<u8>,
    pub accounts: Seq<AccountMetaView>,
    pub data: Seq<u8>,
}

impl View for Instruction {
    type V = InstructionView;

    open spec fn view(&self) -> InstructionView {
        InstructionView {
            program_id: self.program_id@,
            accounts: self.accounts@.map_values(|meta: AccountMeta| meta@),
            data: self.data@,
        }
    }
}

/// A call for the host to make under the program's authority: the
/// instruction, and the seeds that prove the authority.
#[derive(Clone, Debug, PartialEq, Eq)]
pub struct SignedInvocation {
    pub instruction: Instruction,
    pub signer_seeds: Vec<Vec<u8>>,
}

/// A signed call, as plain values.
pub struct SignedInvocationView {
    pub instruction: InstructionView,
    pub signer_seeds: Seq<Seq<u8>>,
}

impl View for SignedInvocation {
    type V = SignedInvocationView;

    open spec fn view(&self) -> SignedInvocationView {
        SignedInvocationView {
            instruction: self.instruction@,
            signer_seeds: self.signer_seeds@.map_values(|seed: Vec<u8>| seed@),
        }
    }
}

/// Whether account data unpacks as an initialized token account under the
/// token program's layout.
pub uninterp spec fn token_account_unpacks(data: Seq<u8>) -> bool;

/// The decimals of the mint that account data unpacks to under the token
/// program's layout; `None` where it does not unpack as an initialized mint.
pub uninterp spec fn mint_decimals(data: Seq<u8>) -> Option<u8>;

/// Calls `spl_token::state::Account::unpack` and drops the account.
///
/// Trusted, not proved: whether it succeeds depends on the data alone, so it
/// succeeds exactly where `token_account_unpacks` holds of the data.
#[verifier::external_body]
fn unpack_token_account(data: &[u8]) -> (res: Result<(), ProgramError>)
    ensures
        res is Ok <==> token_account_unpacks(data@),
{
    spl_token::state::Account::unpack(data).map(|_| ())
}

/// Calls `spl_token::state::Mint::unpack` and keeps the mint's decimals.
///
/// Trusted, not proved: what comes back depends on the data alone, so it
/// succeeds exactly where `mint_decimals` of the data is some number, and
/// with that number.
#[verifier::external_body]
fn unpack_mint_decimals(data: &[u8]) -> (res: Result<u8, ProgramError>)
    ensures
        match mint_decimals(data@) {
            Some(decimals) => res == Ok::<u8, ProgramError>(decimals),
            None => res is Err,
        },
{
    spl_token::state::Mint::unpack(data).map(|mint| mint.decimals)
}

/// How a decimals-checked transfer uses one account.
pub open spec fn meta(key: Seq<u8>, is_signer: bool, is_writable: bool) -> AccountMetaView {
    AccountMetaView { key, is_signer, is_writable }
}

/// The decimals-checked transfer of the token program: the source and the
/// destination writable, the mint and the authority read-only, the authority
/// signing unless other signers are named, each of which signs read-only; the
/// data is the tag, the amount as a little-endian integer and the decimals.
pub open spec fn transfer_checked_instruction(
    token_program: Seq<u8>,
    source: Seq<u8>,
    mint: Seq<u8>,
    destination: Seq<u8>,
    authority: Seq<u8>,
    signers: Seq<Seq<u8>>,
    amount: u64,
    decimals: u8,
) -> InstructionView {
    InstructionView {
        program_id: token_program,
        accounts: seq![
            meta(source, false, true),
            meta(mint, false, false),
            meta(destination, false, true),
            meta(authority, signers.len() == 0, false),
        ] + signers.map_values(|signer: Seq<u8>| meta(signer, true, false)),
        data: seq![TRANSFER_CHECKED_TAG] + le_bytes(amount) + seq![decimals],
    }
}

/// Calls `spl_token::instruction::transfer_checked`.
///
/// Trusted, not proved: it fails exactly where the program addressed is not
/// the token program, and otherwise returns `transfer_checked_instruction`
/// of its arguments.
#[verifier::external_body]
fn transfer_checked(
    token_program: &Address,
    source: &Address,
    mint: &Address,
    destination: &Address,
    authority: &Address,
    signers: &[Address],
    amount: u64,
    decimals: u8,
) -> (res: Result<Instruction, ProgramError>)
    ensures
        res is Ok <==> token_program@ == TOKEN_PROGRAM_ID@,
        res matches Ok(instruction) ==> instruction@ == transfer_checked_instruction(
            token_program@,
            source@,
            mint@,
            destination@,
            authority@,
            signers@.map_values(|signer: Address| signer@),
            amount,
            decimals,
        ),
{
    let keys: Vec<Pubkey> = signers.iter().map(|signer| Pubkey::from(signer.bytes)).collect();
    let built = spl_token::instruction::transfer_checked(
        &Pubkey::from(token_program.bytes), &Pubkey::from(source.bytes),
        &Pubkey::from(mint.bytes), &Pubkey::from(destination.bytes),
        &Pubkey::from(authority.bytes), &keys.iter().collect::<Vec<_>>(), amount, decimals,
    )?;
    let accounts = built.accounts.iter().map(|used| AccountMeta {
        key: Address { bytes: used.pubkey.to_bytes() },
        is_signer: used.is_signer,
        is_writable: used.is_writable,
    }).collect();
    Ok(Instruction { program_id: Address { bytes: built.program_id.to_bytes() }, accounts, data: built.data })
}

/// The seeds that prove the program's authority to the host: the seed label,
/// then the bump seed.
pub open spec fn authority_signer_seeds(bump: u8) -> Seq<Seq<u8>> {
    seq![AUTHORITY_SEED@, seq![bump]]
}

/// Builds the seeds that prove the program's authority to the host.
pub fn signer_seeds(bump: u8) -> (seeds: Vec<Vec<u8>>)
    ensures
        seeds@.map_values(|seed: Vec<u8>| seed@) == authority_signer_seeds(bump),
{
    let label_bytes = AUTHORITY_SEED;
    let mut label: Vec<u8> = Vec::new();
    let mut i: usize = 0;
    while i < label_bytes.len()
        invariant
            i <= label_bytes@.len(),
            label_bytes@ == AUTHORITY_SEED@,
            label@ == AUTHORITY_SEED@.subrange(0, i as int),
        decreases label_bytes@.len() - i,
    {
        label.push(label_bytes[i]);
        assert(label@ =~= AUTHORITY_SEED@.subrange(0, i + 1));
        i += 1;
    }
    assert(label@ =~= AUTHORITY_SEED@);
    let bump_seed: Vec<u8> = vec![bump];
    assert(bump_seed@ =~= seq![bump]);
    let seeds = vec![label, bump_seed];
    assert(seeds@.map_values(|seed: Vec<u8>| seed@) =~= authority_signer_seeds(bump));
    seeds
}

/// What a preparation returned, as plain values.
pub open spec fn invocation_view(res: Result<SignedInvocation, TransferError>) -> Result<
    SignedInvocationView,
    TransferError,
> {
    match res {
        Ok(invocation) => Ok(invocation@),
        Err(error) => Err(error),
    }
}

/// The decimals that a transfer is checked against: those of the mint, once
/// the source has unpacked as a token account and the mint as a mint.
pub open spec fn decimals_read(source_data: Seq<u8>, mint_data: Seq<u8>) -> Result<u8, TransferError> {
    if !token_account_unpacks(source_data) {
        Err(TransferError::InvalidAccountData)
    } else {
        match mint_decimals(mint_data) {
            Some(decimals) => Ok(decimals),
            None => Err(TransferError::InvalidAccountData),
        }
    }
}

/// Unpacks the source account and the mint, in that order, and returns the
/// mint's decimals.
pub fn read_decimals(source: &AccountRef, mint: &AccountRef) -> (res: Result<u8, TransferError>)
    ensures
        res == decimals_read(source.data@, mint.data@),
{
    if unpack_token_account(source.data.as_slice()).is_err() {
        return Err(TransferError::InvalidAccountData);
    }
    match unpack_mint_decimals(mint.data.as_slice()) {
        Ok(decimals) => Ok(decimals),
        Err(_) => Err(TransferError::InvalidAccountData),
    }
}

/// The signed call that moves `amount` at the given decimals: the
/// decimals-checked transfer with the authority as its only signer, under
/// the authority's seeds; refused where the program addressed is not the
/// token program.
pub open spec fn signed_call(
    token_program: Seq<u8>,
    source: Seq<u8>,
    mint: Seq<u8>,
    destination: Seq<u8>,
    authority: (Seq<u8>, u8),
    amount: u64,
    decimals: u8,
) -> Result<SignedInvocationView, TransferError> {
    if token_program != TOKEN_PROGRAM_ID@ {
        Err(TransferError::IncorrectProgramId)
    } else {
        Ok(
            SignedInvocationView {
                instruction: transfer_checked_instruction(
                    token_program,
                    source,
                    mint,
                    destination,
                    authority.0,
                    Seq::empty(),
                    amount,
                    decimals,
                ),
                signer_seeds: authority_signer_seeds(authority.1),
            },
        )
    }
}

/// Builds the decimals-checked transfer of `amount` from the source to the
/// destination, signed by the authority alone, with the seeds that prove it.
pub fn sign_transfer(
    token_program: &Address,
    source: &Address,
    mint: &Address,
    destination: &Address,
    authority: &DerivedAuthority,
    amount: u64,
    decimals: u8,
) -> (res: Result<SignedInvocation, TransferError>)
    ensures
        invocation_view(res) == signed_call(
            token_program@,
            source@,
            mint@,
            destination@,
            authority@,
            amount,
            decimals,
        ),
{
    let no_signers: Vec<Address> = Vec::new();
    let built = transfer_checked(
        token_program,
        source,
        mint,
        destination,
        &authority.address,
        no_signers.as_slice(),
        amount,
        decimals,
    );
    match built {
        Ok(instruction) => {
            assert(no_signers@.map_values(|signer: Address| signer@) =~= Seq::<Seq<u8>>::empty());
            Ok(SignedInvocation { instruction, signer_seeds: signer_seeds(authority.bump) })
        },
        Err(_) => Err(TransferError::IncorrectProgramId),
    }
}

/// The call that carries out a transfer, or the reason why none is made.
///
/// The accounts are taken by their places in the list: five are needed. The
/// source and the mint are unpacked for the decimals, and the call is built
/// from the accounts' addresses.
pub open spec fn prepared(accounts: Seq<AccountRef>, authority: (Seq<u8>, u8), amount: u64) -> Result<
    SignedInvocationView,
    TransferError,
> {
    if accounts.len() < ACCOUNTS_REQUIRED {
        Err(TransferError::NotEnoughAccountKeys)
    } else {
        match decimals_read(
            accounts[SOURCE_ACCOUNT as int].data@,
            accounts[MINT_ACCOUNT as int].data@,
        ) {
            Err(error) => Err(error),
            Ok(decimals) => signed_call(
                accounts[TOKEN_PROGRAM_ACCOUNT as int].key@,
                accounts[SOURCE_ACCOUNT as int].key@,
                accounts[MINT_ACCOUNT as int].key@,
                accounts[DESTINATION_ACCOUNT as int].key@,
                authority,
                amount,
                decimals,
            ),
        }
    }
}

/// Prepares the transfer of `amount` out of the source account, to be
/// invoked under the given authority.
pub fn build_transfer(accounts: &[AccountRef], authority: &DerivedAuthority, amount: u64) -> (res:
    Result<SignedInvocation, TransferError>)
    ensures
        invocation_view(res) == prepared(accounts@, authority@, amount),
{
    if accounts.len() < ACCOUNTS_REQUIRED {
        return Err(TransferError::NotEnoughAccountKeys);
    }
    let source = &accounts[SOURCE_ACCOUNT];
    let mint = &accounts[MINT_ACCOUNT];
    let decimals: u8 = match read_decimals(source, mint) {
        Ok(decimals) => decimals,
        Err(error) => {
            return Err(error);
        },
    };
    sign_transfer(
        &accounts[TOKEN_PROGRAM_ACCOUNT].key,
        &source.key,
        &mint.key,
        &accounts[DESTINATION_ACCOUNT].key,
        authority,
        amount,
        decimals,
    )
}

} // verus!
