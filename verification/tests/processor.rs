use solana_program::account_info::AccountInfo;
use solana_program::program_error::ProgramError;
use solana_program::program_option::COption;
use solana_program::program_pack::Pack;
use solana_program::pubkey::Pubkey;
use spl_token::error::TokenError;
use spl_token::state::{Account, AccountState, Mint};
use token_tranfer::address::Address;
use token_tranfer::authority::{derive_address, AUTHORITY_SEED};
use token_tranfer::error::TransferError;
use token_tranfer::instructions::TransferIx;
use token_tranfer::processor::{process_instruction, settle};
use token_tranfer::transfer::{AccountRef, SignedInvocation, TOKEN_PROGRAM_ID};

const PROGRAM: [u8; 32] = [7; 32];
const SOURCE: [u8; 32] = [1; 32];
const MINT: [u8; 32] = [2; 32];
const DESTINATION: [u8; 32] = [3; 32];

fn program_authority() -> [u8; 32] {
    derive_address(&Address::new(PROGRAM), &AUTHORITY_SEED).unwrap().address.bytes
}

fn mint_with_decimals(decimals: u8) -> Vec<u8> {
    let mint = Mint {
        mint_authority: COption::Some(Pubkey::from([0xaa; 32])),
        supply: 1_000_000_000,
        decimals,
        is_initialized: true,
        freeze_authority: COption::None,
    };
    let mut data = vec![0u8; Mint::LEN];
    Mint::pack(mint, &mut data).unwrap();
    data
}

fn token_account(owner: [u8; 32], amount: u64) -> Vec<u8> {
    let account = Account {
        mint: Pubkey::from(MINT),
        owner: Pubkey::from(owner),
        amount,
        delegate: COption::None,
        state: AccountState::Initialized,
        is_native: COption::None,
        delegated_amount: 0,
        close_authority: COption::None,
    };
    let mut data = vec![0u8; Account::LEN];
    Account::pack(account, &mut data).unwrap();
    data
}

/// The ledger of the scenarios: a mint with 9 decimals, a source that holds
/// 1_000_000_000 base units and an empty destination, both owned by the
/// program's authority.
fn funded_ledger() -> Vec<AccountRef> {
    let authority = program_authority();
    vec![
        AccountRef { key: Address::new(TOKEN_PROGRAM_ID), data: vec![] },
        AccountRef { key: Address::new(SOURCE), data: token_account(authority, 1_000_000_000) },
        AccountRef { key: Address::new(MINT), data: mint_with_decimals(9) },
        AccountRef { key: Address::new(DESTINATION), data: token_account(authority, 0) },
        AccountRef { key: Address::new(authority), data: vec![] },
    ]
}

fn balance(ledger: &[AccountRef], key: [u8; 32]) -> u64 {
    let held = ledger.iter().find(|account| account.key.bytes == key).unwrap();
    Account::unpack(&held.data).unwrap().amount
}

/// Stands in for the host: grants a signature to the address that the seeds
/// derive under the program, runs the token program on the accounts that the
/// call names, and keeps what it wrote only if it succeeded.
fn invoke_as_host(call: &SignedInvocation, ledger: &mut [AccountRef]) -> Result<(), ProgramError> {
    let token_program = Pubkey::from(call.instruction.program_id.bytes);
    assert_eq!(token_program, spl_token::id());
    let seeds: Vec<&[u8]> = call.signer_seeds.iter().map(|seed| seed.as_slice()).collect();
    let proved = Pubkey::create_program_address(&seeds, &Pubkey::from(PROGRAM)).ok();
    let keys: Vec<Pubkey> =
        call.instruction.accounts.iter().map(|used| Pubkey::from(used.key.bytes)).collect();
    let mut lamports: Vec<u64> = vec![0; keys.len()];
    let mut data: Vec<Vec<u8>> = call
        .instruction
        .accounts
        .iter()
        .map(|used| ledger.iter().find(|held| held.key == used.key).unwrap().data.clone())
        .collect();
    let outcome = {
        let mut lent: Vec<AccountInfo> = Vec::new();
        for (((used, key), lamports), data) in call
            .instruction
            .accounts
            .iter()
            .zip(keys.iter())
            .zip(lamports.iter_mut())
            .zip(data.iter_mut())
        {
            let signs = used.is_signer && proved == Some(*key);
            lent.push(AccountInfo::new(
                key,
                signs,
                used.is_writable,
                lamports,
                data,
                &token_program,
                false,
                0,
            ));
        }
        spl_token::processor::Processor::process(&token_program, &lent, &call.instruction.data)
    };
    if outcome.is_ok() {
        for (used, written) in call.instruction.accounts.iter().zip(data) {
            if used.is_writable {
                ledger.iter_mut().find(|held| held.key == used.key).unwrap().data = written;
            }
        }
    }
    outcome
}

fn run(ledger: &mut Vec<AccountRef>, payload: &[u8]) -> Result<(), TransferError> {
    let call = process_instruction(&Address::new(PROGRAM), ledger, payload)?;
    settle(invoke_as_host(&call, ledger))
}

#[test]
fn tf_success() {
    let mut ledger = funded_ledger();
    let payload = TransferIx { amount: 500_000_000 }.pack();
    assert_eq!(run(&mut ledger, &payload), Ok(()));
    assert_eq!(balance(&ledger, DESTINATION), 500_000_000);
    assert_eq!(balance(&ledger, SOURCE), 500_000_000);
}

#[test]
fn transfer_of_the_whole_balance_empties_the_source() {
    let mut ledger = funded_ledger();
    let payload = TransferIx { amount: 1_000_000_000 }.pack();
    assert_eq!(run(&mut ledger, &payload), Ok(()));
    assert_eq!(balance(&ledger, DESTINATION), 1_000_000_000);
    assert_eq!(balance(&ledger, SOURCE), 0);
}

#[test]
fn transfer_beyond_the_balance_fails_and_changes_nothing() {
    let mut ledger = funded_ledger();
    let payload = TransferIx { amount: 2_000_000_000 }.pack();
    assert_eq!(
        run(&mut ledger, &payload),
        Err(TransferError::TransferFailed(TokenError::InsufficientFunds.into()))
    );
    assert_eq!(balance(&ledger, SOURCE), 1_000_000_000);
    assert_eq!(balance(&ledger, DESTINATION), 0);
    assert_eq!(ledger, funded_ledger());
}

#[test]
fn substituted_authority_fails_with_invalid_seeds() {
    let mut ledger = funded_ledger();
    ledger[4].key = Address::new([0x55; 32]);
    let before = ledger.clone();
    let payload = TransferIx { amount: 500_000_000 }.pack();
    assert_eq!(run(&mut ledger, &payload), Err(TransferError::InvalidSeeds));
    assert_eq!(ledger, before);
    assert_eq!(balance(&ledger, SOURCE), 1_000_000_000);
    assert_eq!(balance(&ledger, DESTINATION), 0);
}

#[test]
fn authority_of_another_program_fails_with_invalid_seeds() {
    let mut ledger = funded_ledger();
    let payload = TransferIx { amount: 500_000_000 }.pack();
    let refused = process_instruction(&Address::new([8; 32]), &ledger, &payload);
    assert_eq!(refused, Err(TransferError::InvalidSeeds));
    ledger[4].key = derive_address(&Address::new([8; 32]), &AUTHORITY_SEED).unwrap().address;
    assert_eq!(run(&mut ledger, &payload), Err(TransferError::InvalidSeeds));
}

#[test]
fn four_byte_payload_is_rejected() {
    let mut ledger = funded_ledger();
    assert_eq!(run(&mut ledger, &[1, 2, 3, 4]), Err(TransferError::InvalidInstructionData));
    assert_eq!(ledger, funded_ledger());
}

#[test]
fn malformed_payload_is_rejected_before_any_account_is_read() {
    let program = Address::new(PROGRAM);
    for length in [0usize, 1, 4, 7, 9, 16] {
        let payload = vec![0u8; length];
        assert_eq!(
            process_instruction(&program, &[], &payload),
            Err(TransferError::InvalidInstructionData)
        );
        let unreadable = vec![AccountRef { key: Address::new([0; 32]), data: vec![0xff; 3] }; 5];
        assert_eq!(
            process_instruction(&program, &unreadable, &payload),
            Err(TransferError::InvalidInstructionData)
        );
    }
}

#[test]
fn missing_accounts_are_reported_after_decoding() {
    let program = Address::new(PROGRAM);
    let payload = TransferIx { amount: 1 }.pack();
    let mut ledger = funded_ledger();
    ledger.pop();
    assert_eq!(
        process_instruction(&program, &ledger, &payload),
        Err(TransferError::NotEnoughAccountKeys)
    );
    assert_eq!(process_instruction(&program, &[], &payload), Err(TransferError::NotEnoughAccountKeys));
}

#[test]
fn authority_is_checked_before_the_accounts_are_unpacked() {
    let program = Address::new(PROGRAM);
    let payload = TransferIx { amount: 1 }.pack();
    let mut ledger = funded_ledger();
    ledger[1].data = vec![];
    ledger[2].data = vec![];
    assert_eq!(
        process_instruction(&program, &ledger, &payload),
        Err(TransferError::InvalidAccountData)
    );
    ledger[4].key = Address::new([0x55; 32]);
    assert_eq!(process_instruction(&program, &ledger, &payload), Err(TransferError::InvalidSeeds));
}

#[test]
fn unreadable_mint_is_invalid_account_data() {
    let program = Address::new(PROGRAM);
    let payload = TransferIx { amount: 1 }.pack();
    let mut ledger = funded_ledger();
    ledger[2].data = vec![0; Mint::LEN];
    assert_eq!(
        process_instruction(&program, &ledger, &payload),
        Err(TransferError::InvalidAccountData)
    );
}

#[test]
fn another_token_program_is_refused() {
    let program = Address::new(PROGRAM);
    let payload = TransferIx { amount: 1 }.pack();
    let mut ledger = funded_ledger();
    ledger[0].key = Address::new([0; 32]);
    assert_eq!(
        process_instruction(&program, &ledger, &payload),
        Err(TransferError::IncorrectProgramId)
    );
}

#[test]
fn process_instruction_names_the_derived_authority_as_only_signer() {
    let ledger = funded_ledger();
    let payload = TransferIx { amount: 500_000_000 }.pack();
    let call = process_instruction(&Address::new(PROGRAM), &ledger, &payload).unwrap();
    let derived = derive_address(&Address::new(PROGRAM), &AUTHORITY_SEED).unwrap();
    let signers: Vec<Address> =
        call.instruction.accounts.iter().filter(|used| used.is_signer).map(|used| used.key).collect();
    assert_eq!(signers, vec![derived.address]);
    assert_eq!(call.signer_seeds, vec![b"authority".to_vec(), vec![derived.bump]]);
    assert_eq!(call.instruction.data, vec![12, 0x00, 0x65, 0xcd, 0x1d, 0x00, 0x00, 0x00, 0x00, 9]);
    assert_eq!(call.instruction.program_id, Address::new(TOKEN_PROGRAM_ID));
}

#[test]
fn transfer_with_mismatched_mint_is_rejected_by_the_token_program() {
    let mut ledger = funded_ledger();
    ledger[2].key = Address::new([0x22; 32]);
    let before = ledger.clone();
    let payload = TransferIx { amount: 1 }.pack();
    assert_eq!(
        run(&mut ledger, &payload),
        Err(TransferError::TransferFailed(TokenError::MintMismatch.into()))
    );
    assert_eq!(ledger, before);
}

#[test]
fn settle_commits_a_successful_call() {
    assert_eq!(settle(Ok(())), Ok(()));
}

#[test]
fn settle_wraps_the_invoked_programs_error() {
    assert_eq!(
        settle(Err(ProgramError::Custom(1))),
        Err(TransferError::TransferFailed(ProgramError::Custom(1)))
    );
    assert_eq!(
        settle(Err(ProgramError::MissingRequiredSignature)),
        Err(TransferError::TransferFailed(ProgramError::MissingRequiredSignature))
    );
}
