//! The escrow state machine: Initialize and Exchange, each run against a
//! snapshot of the accounts it was handed.
//!
//! Every check comes before any change: a failing call leaves the snapshot as
//! it was. A successful call updates the snapshot to the state after the call
//! and returns the token operations, in order, that the token program must
//! perform to reach it; the host rolls everything back if any of them fails.
use vstd::prelude::*;
use crate::bytes::{Key, same_key};
use crate::authority::{derive_authority, derived_authority};
use crate::error::{EscrowError, ProcessError};
use crate::instruction::{EscrowInstruction, instruction_decode, invalid_instruction};
use crate::token::TOKEN_PROGRAM_ID;
use crate::state::{
    Escrow, EscrowView, escrow_decode, escrow_decodes, escrow_encode, lemma_decode_encode_prefix,
};

verus! {

/// A token account as the token program holds it.
#[derive(Debug, Clone, Copy, PartialEq, Eq)]
pub struct TokenAccount {
    pub key: Key,
    /// The kind of token the account holds.
    pub mint: Key,
    /// The one address allowed to move the account's tokens or close it.
    pub owner: Key,
    /// Tokens held.
    pub amount: u64,
    /// Native balance, which pays the account's rent.
    pub lamports: u64,
}

/// The account that stores an escrow record.
#[derive(Debug, Clone, PartialEq, Eq)]
pub struct StorageAccount {
    pub key: Key,
    pub lamports: u64,
    pub data: Vec<u8>,
}

/// An account of which only the native balance matters.
#[derive(Debug, Clone, Copy, PartialEq, Eq)]
pub struct SystemAccount {
    pub key: Key,
    pub lamports: u64,
}

/// The accounts of an Initialize call.
#[derive(Debug, Clone, PartialEq, Eq)]
pub struct InitAccounts {
    pub initializer: Key,
    pub initializer_is_signer: bool,
    /// The temporary account holding the tokens party A locks.
    pub temp: TokenAccount,
    /// Party A's token account that receives the payment.
    pub initializer_receiving: Key,
    pub escrow: StorageAccount,
    /// Whether the storage account's balance meets the rent-exemption minimum.
    pub escrow_rent_exempt: bool,
    /// The account passed as the token program.
    pub token_program: Key,
}

/// The accounts of an Exchange call.
#[derive(Debug, Clone, PartialEq, Eq)]
pub struct ExchangeAccounts {
    pub taker: Key,
    pub taker_is_signer: bool,
    /// The taker's account of the token they pay with.
    pub taker_sending: TokenAccount,
    /// The taker's account of the token they receive.
    pub taker_receiving: TokenAccount,
    /// The temporary account holding the locked tokens.
    pub temp: TokenAccount,
    /// Party A's main account, which gets the rent back.
    pub initializer_main: SystemAccount,
    /// Party A's token account that receives the payment.
    pub initializer_receiving: TokenAccount,
    pub escrow: StorageAccount,
    /// The account passed as the token program.
    pub token_program: Key,
    /// The account passed as the derived authority.
    pub authority: Key,
}

/// A request to the token program.
#[derive(Debug, Clone, Copy, PartialEq, Eq)]
pub enum TokenOp {
    /// Hand ownership of `account` from `current_owner` to `new_owner`.
    SetOwner { account: Key, current_owner: Key, new_owner: Key },
    /// Move `amount` tokens, authorized by `authority`, the owner of `source`.
    Transfer { source: Key, destination: Key, authority: Key, amount: u64 },
    /// Close `account`, its balance going to `destination`, authorized by `authority`.
    CloseAccount { account: Key, destination: Key, authority: Key },
}

/// Why Initialize must fail on these accounts, checked in this order; `None`
/// where it succeeds.
pub open spec fn init_failure(a: InitAccounts) -> Option<ProcessError> {
    if !a.initializer_is_signer {
        Some(ProcessError::MissingRequiredSignature)
    } else if !a.escrow_rent_exempt {
        Some(ProcessError::Custom(EscrowError::NotRentExempt))
    } else if !escrow_decodes(a.escrow.data@) {
        Some(ProcessError::InvalidAccountData)
    } else if escrow_decode(a.escrow.data@).is_initialized {
        Some(ProcessError::AccountAlreadyInitialized)
    } else if a.temp.owner != a.initializer || a.token_program != TOKEN_PROGRAM_ID {
        Some(ProcessError::InvalidAccountData)
    } else {
        None
    }
}

/// The record Initialize writes.
pub open spec fn init_record(a: InitAccounts, amount: u64) -> EscrowView {
    EscrowView {
        is_initialized: true,
        initializer_sender_pubkey: a.initializer@,
        temp_token_account_pubkey: a.temp.key@,
        initializer_recipient_pubkey: a.initializer_receiving@,
        expected_amount: amount,
    }
}

/// The record the storage account of an Exchange holds.
pub open spec fn exchange_record(a: ExchangeAccounts) -> EscrowView {
    escrow_decode(a.escrow.data@)
}

/// The four token accounts of an Exchange are four different accounts.
pub open spec fn distinct_token_accounts(a: ExchangeAccounts) -> bool {
    &&& a.taker_sending.key != a.taker_receiving.key
    &&& a.taker_sending.key != a.temp.key
    &&& a.taker_sending.key != a.initializer_receiving.key
    &&& a.taker_receiving.key != a.temp.key
    &&& a.taker_receiving.key != a.initializer_receiving.key
    &&& a.temp.key != a.initializer_receiving.key
}

/// The token program accepts the two transfers and the close: right owners,
/// matching kinds of token.
pub open spec fn token_accounts_consistent(a: ExchangeAccounts, authority: Key) -> bool {
    &&& a.temp.owner == authority
    &&& a.taker_sending.owner == a.taker
    &&& a.temp.mint == a.taker_receiving.mint
    &&& a.taker_sending.mint == a.initializer_receiving.mint
}

/// Why Exchange of `amount` must fail on these accounts, checked in this order;
/// `None` where it succeeds. `authority` is the derived authority.
pub open spec fn exchange_failure(a: ExchangeAccounts, amount: u64, authority: Key) -> Option<
    ProcessError,
> {
    let rec = exchange_record(a);
    if !a.taker_is_signer {
        Some(ProcessError::MissingRequiredSignature)
    } else if !escrow_decodes(a.escrow.data@) || !rec.is_initialized {
        Some(ProcessError::InvalidAccountData)
    } else if a.temp.key@ != rec.temp_token_account_pubkey {
        Some(ProcessError::InvalidAccountData)
    } else if amount != rec.expected_amount {
        Some(ProcessError::Custom(EscrowError::ExpectedAmountMismatch))
    } else if a.initializer_main.key@ != rec.initializer_sender_pubkey
        || a.initializer_receiving.key@ != rec.initializer_recipient_pubkey || a.authority
        != authority || a.token_program != TOKEN_PROGRAM_ID || !distinct_token_accounts(a)
        || !token_accounts_consistent(a, authority) {
        Some(ProcessError::InvalidAccountData)
    } else if a.taker_sending.amount < amount {
        Some(ProcessError::InsufficientFunds)
    } else if a.taker_receiving.amount + a.temp.amount > u64::MAX || a.initializer_receiving.amount
        + amount > u64::MAX || a.initializer_main.lamports + a.temp.lamports + a.escrow.lamports
        > u64::MAX {
        Some(ProcessError::ArithmeticOverflow)
    } else {
        None
    }
}

/// `n` zero bytes.
pub open spec fn zeros(n: nat) -> Seq<u8> {
    Seq::new(n, |i: int| 0u8)
}

/// What Initialize of `amount` with derived authority `authority` does:
/// `pre` and `post` are the accounts before and after, `r` the result.
pub open spec fn init_step(
    pre: InitAccounts,
    post: InitAccounts,
    amount: u64,
    authority: Key,
    r: Result<Vec<TokenOp>, ProcessError>,
) -> bool {
    match init_failure(pre) {
        Some(e) => r == Err::<Vec<TokenOp>, ProcessError>(e) && post == pre,
        None => {
            &&& r is Ok
            &&& r->Ok_0@ == seq![
                TokenOp::SetOwner {
                    account: pre.temp.key,
                    current_owner: pre.initializer,
                    new_owner: authority,
                },
            ]
            &&& post.temp == (TokenAccount { owner: authority, ..pre.temp })
            &&& post.escrow.data@ == escrow_encode(init_record(pre, amount))
                + pre.escrow.data@.subrange(105, pre.escrow.data@.len() as int)
            &&& post.escrow.key == pre.escrow.key
            &&& post.escrow.lamports == pre.escrow.lamports
            &&& post.initializer == pre.initializer
            &&& post.initializer_is_signer == pre.initializer_is_signer
            &&& post.initializer_receiving == pre.initializer_receiving
            &&& post.escrow_rent_exempt == pre.escrow_rent_exempt
            &&& post.token_program == pre.token_program
        },
    }
}

/// What Exchange of `amount` with derived authority `authority` does:
/// `pre` and `post` are the accounts before and after, `r` the result.
pub open spec fn exchange_step(
    pre: ExchangeAccounts,
    post: ExchangeAccounts,
    amount: u64,
    authority: Key,
    r: Result<Vec<TokenOp>, ProcessError>,
) -> bool {
    match exchange_failure(pre, amount, authority) {
        Some(e) => r == Err::<Vec<TokenOp>, ProcessError>(e) && post == pre,
        None => {
            &&& r is Ok
            &&& r->Ok_0@ == seq![
                TokenOp::Transfer {
                    source: pre.taker_sending.key,
                    destination: pre.initializer_receiving.key,
                    authority: pre.taker,
                    amount,
                },
                TokenOp::Transfer {
                    source: pre.temp.key,
                    destination: pre.taker_receiving.key,
                    authority,
                    amount: pre.temp.amount,
                },
                TokenOp::CloseAccount {
                    account: pre.temp.key,
                    destination: pre.initializer_main.key,
                    authority,
                },
            ]
            &&& post.taker_sending == (TokenAccount {
                amount: (pre.taker_sending.amount - amount) as u64,
                ..pre.taker_sending
            })
            &&& post.initializer_receiving == (TokenAccount {
                amount: (pre.initializer_receiving.amount + amount) as u64,
                ..pre.initializer_receiving
            })
            &&& post.taker_receiving == (TokenAccount {
                amount: (pre.taker_receiving.amount + pre.temp.amount) as u64,
                ..pre.taker_receiving
            })
            &&& post.temp == (TokenAccount { amount: 0, lamports: 0, ..pre.temp })
            &&& post.initializer_main == (SystemAccount {
                lamports: (pre.initializer_main.lamports + pre.temp.lamports
                    + pre.escrow.lamports) as u64,
                ..pre.initializer_main
            })
            &&& post.escrow.key == pre.escrow.key
            &&& post.escrow.lamports == 0
            &&& post.escrow.data@ == zeros(pre.escrow.data@.len())
            &&& post.taker == pre.taker
            &&& post.taker_is_signer == pre.taker_is_signer
            &&& post.authority == pre.authority
            &&& post.token_program == pre.token_program
        },
    }
}

/// Runs Initialize of a trade asking `amount`, with `authority` the derived
/// authority: checks the accounts, hands the temporary account to the
/// authority and writes a live record into the storage account.
pub fn process_init_escrow(accounts: &mut InitAccounts, amount: u64, authority: &Key) -> (r: Result<
    Vec<TokenOp>,
    ProcessError,
>)
    ensures
        init_step(*old(accounts), *final(accounts), amount, *authority, r),
{
    if !accounts.initializer_is_signer {
        return Err(ProcessError::MissingRequiredSignature);
    }
    if !accounts.escrow_rent_exempt {
        return Err(ProcessError::Custom(EscrowError::NotRentExempt));
    }
    let current = Escrow::unpack_from_slice(accounts.escrow.data.as_slice())?;
    if current.is_initialized() {
        return Err(ProcessError::AccountAlreadyInitialized);
    }
    if !same_key(&accounts.temp.owner, &accounts.initializer) || !same_key(
        &accounts.token_program,
        &TOKEN_PROGRAM_ID,
    ) {
        return Err(ProcessError::InvalidAccountData);
    }
    let record = Escrow {
        is_initialized: true,
        initializer_sender_pubkey: accounts.initializer,
        temp_token_account_pubkey: accounts.temp.key,
        initializer_recipient_pubkey: accounts.initializer_receiving,
        expected_amount: amount,
    };
    let ghost pre = *accounts;
    record.pack_into_slice(accounts.escrow.data.as_mut_slice());
    assert(record@ == init_record(pre, amount));
    let op = TokenOp::SetOwner {
        account: accounts.temp.key,
        current_owner: accounts.initializer,
        new_owner: *authority,
    };
    accounts.temp.owner = *authority;
    let mut ops: Vec<TokenOp> = Vec::new();
    ops.push(op);
    assert(ops@ =~= seq![op]);
    Ok(ops)
}

/// Runs Exchange of `amount`, with `authority` the derived authority: checks
/// the record and the accounts, pays the initializer, hands the locked tokens to
/// the taker, closes the temporary account and the storage account, and returns
/// their native balances to the initializer.
pub fn process_exchange(accounts: &mut ExchangeAccounts, amount: u64, authority: &Key) -> (r:
    Result<Vec<TokenOp>, ProcessError>)
    ensures
        exchange_step(*old(accounts), *final(accounts), amount, *authority, r),
{
    if !accounts.taker_is_signer {
        return Err(ProcessError::MissingRequiredSignature);
    }
    let record = Escrow::unpack_from_slice(accounts.escrow.data.as_slice())?;
    if !record.is_initialized() {
        return Err(ProcessError::InvalidAccountData);
    }
    if !same_key(&accounts.temp.key, &record.temp_token_account_pubkey) {
        return Err(ProcessError::InvalidAccountData);
    }
    if amount != record.expected_amount {
        return Err(ProcessError::Custom(EscrowError::ExpectedAmountMismatch));
    }
    if !same_key(&accounts.initializer_main.key, &record.initializer_sender_pubkey)
        || !same_key(&accounts.initializer_receiving.key, &record.initializer_recipient_pubkey)
        || !same_key(&accounts.authority, authority) || !same_key(
        &accounts.token_program,
        &TOKEN_PROGRAM_ID,
    ) || !distinct_keys(accounts)
        || !same_key(&accounts.temp.owner, authority) || !same_key(
        &accounts.taker_sending.owner,
        &accounts.taker,
    ) || !same_key(&accounts.temp.mint, &accounts.taker_receiving.mint) || !same_key(
        &accounts.taker_sending.mint,
        &accounts.initializer_receiving.mint,
    ) {
        return Err(ProcessError::InvalidAccountData);
    }
    if accounts.taker_sending.amount < amount {
        return Err(ProcessError::InsufficientFunds);
    }
    let locked = accounts.temp.amount;
    let refund = accounts.temp.lamports;
    if locked > u64::MAX - accounts.taker_receiving.amount || amount > u64::MAX
        - accounts.initializer_receiving.amount || refund > u64::MAX
        - accounts.initializer_main.lamports || accounts.escrow.lamports > u64::MAX - (
    accounts.initializer_main.lamports + refund) {
        return Err(ProcessError::ArithmeticOverflow);
    }
    let mut ops: Vec<TokenOp> = Vec::new();
    let pay = TokenOp::Transfer {
        source: accounts.taker_sending.key,
        destination: accounts.initializer_receiving.key,
        authority: accounts.taker,
        amount,
    };
    let release = TokenOp::Transfer {
        source: accounts.temp.key,
        destination: accounts.taker_receiving.key,
        authority: *authority,
        amount: locked,
    };
    let close = TokenOp::CloseAccount {
        account: accounts.temp.key,
        destination: accounts.initializer_main.key,
        authority: *authority,
    };
    ops.push(pay);
    ops.push(release);
    ops.push(close);
    assert(ops@ =~= seq![pay, release, close]);

    accounts.taker_sending.amount = accounts.taker_sending.amount - amount;
    accounts.initializer_receiving.amount = accounts.initializer_receiving.amount + amount;
    accounts.taker_receiving.amount = accounts.taker_receiving.amount + locked;
    accounts.temp.amount = 0;
    accounts.temp.lamports = 0;
    accounts.initializer_main.lamports = accounts.initializer_main.lamports + refund
        + accounts.escrow.lamports;
    accounts.escrow.lamports = 0;
    erase(&mut accounts.escrow.data);
    Ok(ops)
}

/// Whether the four token accounts of an Exchange are four different accounts.
fn distinct_keys(a: &ExchangeAccounts) -> (r: bool)
    ensures
        r == distinct_token_accounts(*a),
{
    !same_key(&a.taker_sending.key, &a.taker_receiving.key) && !same_key(
        &a.taker_sending.key,
        &a.temp.key,
    ) && !same_key(&a.taker_sending.key, &a.initializer_receiving.key) && !same_key(
        &a.taker_receiving.key,
        &a.temp.key,
    ) && !same_key(&a.taker_receiving.key, &a.initializer_receiving.key) && !same_key(
        &a.temp.key,
        &a.initializer_receiving.key,
    )
}

/// Sets every byte of `data` to zero.
fn erase(data: &mut Vec<u8>)
    ensures
        final(data)@ == zeros(old(data)@.len()),
{
    let n = data.len();
    let mut i: usize = 0;
    while i < n
        invariant
            n == data@.len(),
            n == old(data)@.len(),
            i <= n,
            forall|j: int| 0 <= j < i ==> #[trigger] data@[j] == 0u8,
        decreases n - i,
    {
        data.set(i, 0u8);
        i = i + 1;
    }
    assert(data@ =~= zeros(n as nat));
}

/// The accounts handed to one call, shaped by the instruction they go with.
#[derive(Debug, Clone, PartialEq, Eq)]
pub enum EscrowAccounts {
    Init(InitAccounts),
    Exchange(ExchangeAccounts),
}

/// What a whole call does: decode `input`, derive the authority of
/// `program_id`, and run the operation on accounts of the matching shape.
pub open spec fn instruction_step(
    program_id: Seq<u8>,
    input: Seq<u8>,
    pre: EscrowAccounts,
    post: EscrowAccounts,
    r: Result<Vec<TokenOp>, ProcessError>,
) -> bool {
    match instruction_decode(input) {
        None => r == Err::<Vec<TokenOp>, ProcessError>(invalid_instruction()) && post == pre,
        Some(ins) => match derived_authority(program_id) {
            None => r == Err::<Vec<TokenOp>, ProcessError>(ProcessError::InvalidSeeds) && post
                == pre,
            Some(found) => match (ins, pre, post) {
                (
                    EscrowInstruction::InitEscrow { amount },
                    EscrowAccounts::Init(a),
                    EscrowAccounts::Init(b),
                ) => exists|k: Key| k@ == found.0 && init_step(a, b, amount, k, r),
                (
                    EscrowInstruction::Exchange { amount },
                    EscrowAccounts::Exchange(a),
                    EscrowAccounts::Exchange(b),
                ) => exists|k: Key| k@ == found.0 && exchange_step(a, b, amount, k, r),
                (EscrowInstruction::InitEscrow { .. }, EscrowAccounts::Exchange(_), _)
                | (EscrowInstruction::Exchange { .. }, EscrowAccounts::Init(_), _) => r == Err::<
                    Vec<TokenOp>,
                    ProcessError,
                >(ProcessError::NotEnoughAccountKeys) && post == pre,
                _ => false,
            },
        },
    }
}

/// Runs one call: decodes the instruction, derives the authority and runs
/// Initialize or Exchange on the accounts.
pub fn process_instruction(program_id: &Key, input: &[u8], accounts: &mut EscrowAccounts) -> (r:
    Result<Vec<TokenOp>, ProcessError>)
    ensures
        instruction_step(program_id@, input@, *old(accounts), *final(accounts), r),
{
    let instruction = EscrowInstruction::unpack(input)?;
    let authority = match derive_authority(program_id) {
        Some(found) => found.0,
        None => {
            return Err(ProcessError::InvalidSeeds);
        },
    };
    match instruction {
        EscrowInstruction::InitEscrow { amount } => match accounts {
            EscrowAccounts::Init(a) => process_init_escrow(a, amount, &authority),
            EscrowAccounts::Exchange(_) => Err(ProcessError::NotEnoughAccountKeys),
        },
        EscrowInstruction::Exchange { amount } => match accounts {
            EscrowAccounts::Exchange(a) => process_exchange(a, amount, &authority),
            EscrowAccounts::Init(_) => Err(ProcessError::NotEnoughAccountKeys),
        },
    }
}

/// Initialize on a storage account that already holds a live escrow fails and
/// leaves every account, the temporary account's owner and the record
/// included, as it was.
pub proof fn lemma_init_live_escrow_unchanged(
    pre: InitAccounts,
    post: InitAccounts,
    amount: u64,
    authority: Key,
    r: Result<Vec<TokenOp>, ProcessError>,
)
    requires
        init_step(pre, post, amount, authority, r),
        escrow_decodes(pre.escrow.data@),
        escrow_decode(pre.escrow.data@).is_initialized,
    ensures
        r is Err,
        post == pre,
        pre.initializer_is_signer && pre.escrow_rent_exempt ==> r
            == Err::<Vec<TokenOp>, ProcessError>(ProcessError::AccountAlreadyInitialized),
{
}

/// Exchange of an amount other than the one the record expects fails with
/// `ExpectedAmountMismatch` and leaves every account, balances and record
/// included, as it was. This holds once the checks that come before it pass:
/// the taker signed, the record is live, and the temporary account is the
/// recorded one.
pub proof fn lemma_exchange_amount_mismatch(
    pre: ExchangeAccounts,
    post: ExchangeAccounts,
    amount: u64,
    authority: Key,
    r: Result<Vec<TokenOp>, ProcessError>,
)
    requires
        exchange_step(pre, post, amount, authority, r),
        pre.taker_is_signer,
        escrow_decodes(pre.escrow.data@),
        exchange_record(pre).is_initialized,
        pre.temp.key@ == exchange_record(pre).temp_token_account_pubkey,
        amount != exchange_record(pre).expected_amount,
    ensures
        r == Err::<Vec<TokenOp>, ProcessError>(
            ProcessError::Custom(EscrowError::ExpectedAmountMismatch),
        ),
        post == pre,
{
}

/// After a successful Exchange, a second Exchange against the same storage
/// account fails, changes nothing, and, once the taker has signed, reports
/// `InvalidAccountData`: the account no longer holds a live record.
pub proof fn lemma_exchange_twice_fails(
    first_pre: ExchangeAccounts,
    first_post: ExchangeAccounts,
    first_amount: u64,
    first_authority: Key,
    first_r: Result<Vec<TokenOp>, ProcessError>,
    pre: ExchangeAccounts,
    post: ExchangeAccounts,
    amount: u64,
    authority: Key,
    r: Result<Vec<TokenOp>, ProcessError>,
)
    requires
        exchange_step(first_pre, first_post, first_amount, first_authority, first_r),
        first_r is Ok,
        pre.escrow.data@ == first_post.escrow.data@,
        exchange_step(pre, post, amount, authority, r),
    ensures
        r is Err,
        post == pre,
        pre.taker_is_signer ==> r == Err::<Vec<TokenOp>, ProcessError>(
            ProcessError::InvalidAccountData,
        ),
{
    let d = pre.escrow.data@;
    if d.len() >= 105 {
        assert(d[0] == 0u8);
    }
}

/// A whole trade. Initialize of `amount` that succeeds, then Exchange of the
/// same amount against the accounts it recorded: the taker signed, the
/// authority and token program are the right ones, the four token accounts
/// are distinct and of matching tokens, the taker owns and funds the sending
/// account, and no balance overflows. Then the temporary account belongs to the
/// authority after Initialize, and Exchange succeeds: the taker gets every
/// locked token, the initializer gets `amount`, the temporary account and the
/// storage account are closed with their native balances returned to the
/// initializer, and the record no longer reads as live.
pub proof fn lemma_trade_completes(
    init_pre: InitAccounts,
    init_post: InitAccounts,
    amount: u64,
    authority: Key,
    init_r: Result<Vec<TokenOp>, ProcessError>,
    pre: ExchangeAccounts,
    post: ExchangeAccounts,
    r: Result<Vec<TokenOp>, ProcessError>,
)
    requires
        init_step(init_pre, init_post, amount, authority, init_r),
        init_failure(init_pre) is None,
        pre.escrow.data@ == init_post.escrow.data@,
        pre.temp == init_post.temp,
        pre.taker_is_signer,
        pre.initializer_main.key == init_pre.initializer,
        pre.initializer_receiving.key == init_pre.initializer_receiving,
        pre.authority == authority,
        pre.token_program == TOKEN_PROGRAM_ID,
        distinct_token_accounts(pre),
        pre.taker_sending.owner == pre.taker,
        pre.temp.mint == pre.taker_receiving.mint,
        pre.taker_sending.mint == pre.initializer_receiving.mint,
        pre.taker_sending.amount >= amount,
        pre.taker_receiving.amount + pre.temp.amount <= u64::MAX,
        pre.initializer_receiving.amount + amount <= u64::MAX,
        pre.initializer_main.lamports + pre.temp.lamports + pre.escrow.lamports <= u64::MAX,
        exchange_step(pre, post, amount, authority, r),
    ensures
        init_r is Ok,
        init_post.temp.owner == authority,
        init_post.temp.amount == init_pre.temp.amount,
        exchange_record(pre) == init_record(init_pre, amount),
        r is Ok,
        post.taker_receiving.amount == pre.taker_receiving.amount + init_pre.temp.amount,
        post.taker_sending.amount == pre.taker_sending.amount - amount,
        post.initializer_receiving.amount == pre.initializer_receiving.amount + amount,
        post.temp.amount == 0,
        post.temp.lamports == 0,
        post.escrow.lamports == 0,
        post.initializer_main.lamports == pre.initializer_main.lamports + pre.temp.lamports
            + pre.escrow.lamports,
        !(escrow_decodes(post.escrow.data@) && escrow_decode(post.escrow.data@).is_initialized),
{
    let d = init_pre.escrow.data@;
    lemma_decode_encode_prefix(init_record(init_pre, amount), d.subrange(105, d.len() as int));
    let z = post.escrow.data@;
    if z.len() >= 105 {
        assert(z[0] == 0u8);
    }
}

} // verus!
