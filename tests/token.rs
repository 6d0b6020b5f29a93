use escrow::error::ProcessError;
use escrow::processor::{TokenAccount, TokenOp};
use escrow::token::read_token_account;

#[test]
fn transfer_data_is_tag_and_amount() {
    let op = TokenOp::Transfer { source: [1u8; 32], destination: [2u8; 32], authority: [3u8; 32], amount: 0x0102 };
    assert_eq!(op.instruction_data(), vec![3u8, 2, 1, 0, 0, 0, 0, 0, 0]);
}

#[test]
fn set_owner_data_names_new_owner() {
    let op = TokenOp::SetOwner { account: [1u8; 32], current_owner: [2u8; 32], new_owner: [7u8; 32] };
    let mut expected = vec![6u8, 2, 1];
    expected.extend_from_slice(&[7u8; 32]);
    assert_eq!(op.instruction_data(), expected);
}

#[test]
fn close_account_data_is_tag() {
    let op = TokenOp::CloseAccount { account: [1u8; 32], destination: [2u8; 32], authority: [3u8; 32] };
    assert_eq!(op.instruction_data(), vec![9u8]);
}

fn token_data(state: u8) -> Vec<u8> {
    let mut d = vec![0u8; 165];
    d[..32].copy_from_slice(&[4u8; 32]);
    d[32..64].copy_from_slice(&[5u8; 32]);
    d[64..72].copy_from_slice(&1000u64.to_le_bytes());
    d[108] = state;
    d
}

#[test]
fn reads_token_account_fields() {
    let r = read_token_account([9u8; 32], 77, &token_data(1));
    assert_eq!(
        r,
        Ok(TokenAccount { key: [9u8; 32], mint: [4u8; 32], owner: [5u8; 32], amount: 1000, lamports: 77 })
    );
}

#[test]
fn rejects_unusable_token_accounts() {
    assert_eq!(read_token_account([9u8; 32], 77, &token_data(0)), Err(ProcessError::InvalidAccountData));
    assert_eq!(read_token_account([9u8; 32], 77, &token_data(2)), Err(ProcessError::InvalidAccountData));
    assert_eq!(read_token_account([9u8; 32], 77, &token_data(1)[..164]), Err(ProcessError::InvalidAccountData));
}

