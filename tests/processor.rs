use escrow::authority::{authority_seed_bytes, derive_authority};
use escrow::bytes::Key;
use escrow::error::{EscrowError, ProcessError};
use escrow::processor::{
    process_exchange, process_init_escrow, process_instruction, EscrowAccounts,
    ExchangeAccounts, InitAccounts, StorageAccount, SystemAccount, TokenAccount, TokenOp,
};
use escrow::state::{Escrow, ESCROW_LEN};
use escrow::token::TOKEN_PROGRAM_ID;

const PROGRAM: Key = [40u8; 32];
const ALICE: Key = [10u8; 32];
const TEMP: Key = [11u8; 32];
const ALICE_Y: Key = [12u8; 32];
const STORAGE: Key = [13u8; 32];
const BOB: Key = [20u8; 32];
const BOB_Y: Key = [21u8; 32];
const BOB_X: Key = [22u8; 32];
const MINT_X: Key = [30u8; 32];
const MINT_Y: Key = [31u8; 32];

fn authority() -> Key {
    derive_authority(&PROGRAM).expect("an authority exists").0
}

fn init_accounts() -> InitAccounts {
    InitAccounts {
        initializer: ALICE,
        initializer_is_signer: true,
        temp: TokenAccount { key: TEMP, mint: MINT_X, owner: ALICE, amount: 100, lamports: 2000 },
        initializer_receiving: ALICE_Y,
        escrow: StorageAccount { key: STORAGE, lamports: 3000, data: vec![0u8; ESCROW_LEN] },
        escrow_rent_exempt: true,
        token_program: TOKEN_PROGRAM_ID,
    }
}

fn exchange_accounts(after_init: &InitAccounts) -> ExchangeAccounts {
    ExchangeAccounts {
        taker: BOB,
        taker_is_signer: true,
        taker_sending: TokenAccount { key: BOB_Y, mint: MINT_Y, owner: BOB, amount: 80, lamports: 2000 },
        taker_receiving: TokenAccount { key: BOB_X, mint: MINT_X, owner: BOB, amount: 5, lamports: 2000 },
        temp: after_init.temp,
        initializer_main: SystemAccount { key: ALICE, lamports: 10_000 },
        initializer_receiving: TokenAccount { key: ALICE_Y, mint: MINT_Y, owner: ALICE, amount: 1, lamports: 2000 },
        escrow: after_init.escrow.clone(),
        token_program: TOKEN_PROGRAM_ID,
        authority: authority(),
    }
}

fn initialized() -> InitAccounts {
    let mut a = init_accounts();
    process_init_escrow(&mut a, 50, &authority()).expect("initialize succeeds");
    a
}

#[test]
fn authority_is_deterministic() {
    let first = derive_authority(&PROGRAM);
    let second = derive_authority(&PROGRAM);
    assert!(first.is_some());
    assert_eq!(first, second);
    assert_ne!(first.unwrap().0, PROGRAM);
    assert_ne!(derive_authority(&[41u8; 32]), first);
    assert_eq!(authority_seed_bytes(), b"escrow".to_vec());
}

#[test]
fn initialize_records_trade_and_hands_temp_to_authority() {
    let auth = authority();
    let mut a = init_accounts();
    let ops = process_init_escrow(&mut a, 50, &auth).unwrap();
    assert_eq!(ops, vec![TokenOp::SetOwner { account: TEMP, current_owner: ALICE, new_owner: auth }]);
    assert_eq!(a.temp.owner, auth);
    assert_eq!(a.temp.amount, 100);
    let rec = Escrow::unpack_from_slice(&a.escrow.data).unwrap();
    assert_eq!(
        rec,
        Escrow {
            is_initialized: true,
            initializer_sender_pubkey: ALICE,
            temp_token_account_pubkey: TEMP,
            initializer_recipient_pubkey: ALICE_Y,
            expected_amount: 50,
        }
    );
    assert_eq!(a.escrow.lamports, 3000);
}

#[test]
fn initialize_on_live_escrow_fails_unchanged() {
    let mut a = initialized();
    a.temp.owner = ALICE;
    let before = a.clone();
    let r = process_init_escrow(&mut a, 77, &authority());
    assert_eq!(r, Err(ProcessError::AccountAlreadyInitialized));
    assert_eq!(a, before);
}

#[test]
fn initialize_requires_signature() {
    let mut a = init_accounts();
    a.initializer_is_signer = false;
    let before = a.clone();
    assert_eq!(process_init_escrow(&mut a, 50, &authority()), Err(ProcessError::MissingRequiredSignature));
    assert_eq!(a, before);
}

#[test]
fn initialize_requires_rent_exemption() {
    let mut a = init_accounts();
    a.escrow_rent_exempt = false;
    let before = a.clone();
    assert_eq!(
        process_init_escrow(&mut a, 50, &authority()),
        Err(ProcessError::Custom(EscrowError::NotRentExempt))
    );
    assert_eq!(a, before);
}

#[test]
fn initialize_rejects_undecodable_storage() {
    let mut a = init_accounts();
    a.escrow.data = vec![0u8; 50];
    assert_eq!(process_init_escrow(&mut a, 50, &authority()), Err(ProcessError::InvalidAccountData));
    let mut a = init_accounts();
    a.escrow.data[0] = 3;
    assert_eq!(process_init_escrow(&mut a, 50, &authority()), Err(ProcessError::InvalidAccountData));
}

#[test]
fn initialize_rejects_temp_not_owned_by_initializer() {
    let mut a = init_accounts();
    a.temp.owner = BOB;
    let before = a.clone();
    assert_eq!(process_init_escrow(&mut a, 50, &authority()), Err(ProcessError::InvalidAccountData));
    assert_eq!(a, before);
}

#[test]
fn exchange_amount_mismatch_fails_unchanged() {
    let mut x = exchange_accounts(&initialized());
    let before = x.clone();
    let r = process_exchange(&mut x, 49, &authority());
    assert_eq!(r, Err(ProcessError::Custom(EscrowError::ExpectedAmountMismatch)));
    assert_eq!(x, before);
}

#[test]
fn end_to_end_trade() {
    let auth = authority();
    let a = initialized();
    assert_eq!(a.temp.owner, auth);
    assert_eq!(Escrow::unpack_from_slice(&a.escrow.data).unwrap().expected_amount, 50);
    let mut x = exchange_accounts(&a);
    let ops = process_exchange(&mut x, 50, &auth).unwrap();
    assert_eq!(
        ops,
        vec![
            TokenOp::Transfer { source: BOB_Y, destination: ALICE_Y, authority: BOB, amount: 50 },
            TokenOp::Transfer { source: TEMP, destination: BOB_X, authority: auth, amount: 100 },
            TokenOp::CloseAccount { account: TEMP, destination: ALICE, authority: auth },
        ]
    );
    assert_eq!(x.taker_receiving.amount, 105);
    assert_eq!(x.taker_sending.amount, 30);
    assert_eq!(x.initializer_receiving.amount, 51);
    assert_eq!(x.temp.amount, 0);
    assert_eq!(x.temp.lamports, 0);
    assert_eq!(x.escrow.lamports, 0);
    assert_eq!(x.escrow.data, vec![0u8; ESCROW_LEN]);
    assert_eq!(x.initializer_main.lamports, 10_000 + 2000 + 3000);
}

#[test]
fn exchange_twice_fails() {
    let auth = authority();
    let mut x = exchange_accounts(&initialized());
    process_exchange(&mut x, 50, &auth).unwrap();
    let before = x.clone();
    assert_eq!(process_exchange(&mut x, 50, &auth), Err(ProcessError::InvalidAccountData));
    assert_eq!(x, before);
}

#[test]
fn exchange_rejects_substituted_temp_account() {
    let mut x = exchange_accounts(&initialized());
    x.temp.key = [99u8; 32];
    assert_eq!(process_exchange(&mut x, 50, &authority()), Err(ProcessError::InvalidAccountData));
}

#[test]
fn exchange_rejects_wrong_initializer_accounts_and_authority() {
    let a = initialized();
    let mut x = exchange_accounts(&a);
    x.initializer_main.key = BOB;
    assert_eq!(process_exchange(&mut x, 50, &authority()), Err(ProcessError::InvalidAccountData));
    let mut x = exchange_accounts(&a);
    x.authority = PROGRAM;
    assert_eq!(process_exchange(&mut x, 50, &authority()), Err(ProcessError::InvalidAccountData));
    let mut x = exchange_accounts(&a);
    x.taker_receiving.mint = MINT_Y;
    assert_eq!(process_exchange(&mut x, 50, &authority()), Err(ProcessError::InvalidAccountData));
}

#[test]
fn exchange_requires_signature() {
    let mut x = exchange_accounts(&initialized());
    x.taker_is_signer = false;
    assert_eq!(process_exchange(&mut x, 50, &authority()), Err(ProcessError::MissingRequiredSignature));
}

#[test]
fn exchange_insufficient_funds() {
    let mut x = exchange_accounts(&initialized());
    x.taker_sending.amount = 49;
    let before = x.clone();
    assert_eq!(process_exchange(&mut x, 50, &authority()), Err(ProcessError::InsufficientFunds));
    assert_eq!(x, before);
}

#[test]
fn exchange_overflow_rejected() {
    let mut x = exchange_accounts(&initialized());
    x.taker_receiving.amount = u64::MAX - 99;
    assert_eq!(process_exchange(&mut x, 50, &authority()), Err(ProcessError::ArithmeticOverflow));
    let mut x = exchange_accounts(&initialized());
    x.taker_receiving.amount = u64::MAX - 100;
    assert!(process_exchange(&mut x, 50, &authority()).is_ok());
    assert_eq!(x.taker_receiving.amount, u64::MAX);
}

#[test]
fn process_instruction_dispatches() {
    let mut data = vec![0u8];
    data.extend_from_slice(&50u64.to_le_bytes());
    let mut accounts = EscrowAccounts::Init(init_accounts());
    let ops = process_instruction(&PROGRAM, &data, &mut accounts).unwrap();
    assert_eq!(ops.len(), 1);
    let a = match accounts {
        EscrowAccounts::Init(a) => a,
        EscrowAccounts::Exchange(_) => panic!("shape changed"),
    };
    assert_eq!(a.temp.owner, authority());

    let mut data = vec![1u8];
    data.extend_from_slice(&50u64.to_le_bytes());
    let mut accounts = EscrowAccounts::Init(init_accounts());
    assert_eq!(process_instruction(&PROGRAM, &data, &mut accounts), Err(ProcessError::NotEnoughAccountKeys));

    let mut accounts = EscrowAccounts::Exchange(exchange_accounts(&a));
    assert_eq!(process_instruction(&PROGRAM, &data, &mut accounts).unwrap().len(), 3);

    let mut accounts = EscrowAccounts::Init(init_accounts());
    assert_eq!(
        process_instruction(&PROGRAM, &[2u8], &mut accounts),
        Err(ProcessError::Custom(EscrowError::InvalidInstruction))
    );
}

#[test]
fn initialize_rejects_foreign_token_program() {
    let mut a = init_accounts();
    a.token_program = BOB;
    let before = a.clone();
    assert_eq!(process_init_escrow(&mut a, 50, &authority()), Err(ProcessError::InvalidAccountData));
    assert_eq!(a, before);
}

#[test]
fn exchange_rejects_foreign_token_program() {
    let mut x = exchange_accounts(&initialized());
    x.token_program = PROGRAM;
    let before = x.clone();
    assert_eq!(process_exchange(&mut x, 50, &authority()), Err(ProcessError::InvalidAccountData));
    assert_eq!(x, before);
}
