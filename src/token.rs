//! The token program's instruction data for each operation the escrow requests.
use vstd::prelude::*;
use crate::bytes::{Key, le_bytes, le_value, read_key, read_u64_le, write_u64_le};
use crate::error::ProcessError;
use crate::processor::{TokenAccount, TokenOp};

verus! {

/// The token program's id, `TokenkegQfeZyiNwAJbNbGKPFXCWuBvf9Ss623VQ5DA` in base 58:
/// the only program the escrow hands the derived authority's signature to.
pub const TOKEN_PROGRAM_ID: Key = [
    6, 221, 246, 225, 215, 101, 161, 147, 217, 203, 225, 70, 206, 235, 121, 172, 28, 180, 133,
    237, 95, 91, 55, 145, 58, 140, 245, 133, 126, 255, 0, 169,
];

/// Tag of the token program's Transfer.
pub const TRANSFER_TAG: u8 = 3;

/// Tag of the token program's SetAuthority.
pub const SET_AUTHORITY_TAG: u8 = 6;

/// Tag of the token program's CloseAccount.
pub const CLOSE_ACCOUNT_TAG: u8 = 9;

/// The authority kind that owns a token account.
pub const ACCOUNT_OWNER_KIND: u8 = 2;

/// The bytes the token program reads for `op`: Transfer is its tag and the
/// little-endian amount; SetOwner is its tag, the owner kind, 1 for a present
/// key, and the new owner; CloseAccount is its tag alone.
pub open spec fn token_op_data(op: TokenOp) -> Seq<u8> {
    match op {
        TokenOp::Transfer { amount, .. } => seq![TRANSFER_TAG] + le_bytes(amount),
        TokenOp::SetOwner { new_owner, .. } => seq![SET_AUTHORITY_TAG, ACCOUNT_OWNER_KIND, 1u8]
            + new_owner@,
        TokenOp::CloseAccount { .. } => seq![CLOSE_ACCOUNT_TAG],
    }
}

impl TokenOp {
    /// The instruction data the token program reads for this operation.
    pub fn instruction_data(&self) -> (r: Vec<u8>)
        ensures
            r@ == token_op_data(*self),
    {
        match self {
            TokenOp::Transfer { amount, .. } => {
                let mut v: Vec<u8> = vec![TRANSFER_TAG, 0, 0, 0, 0, 0, 0, 0, 0];
                write_u64_le(v.as_mut_slice(), 1, *amount);
                assert(v@ =~= seq![TRANSFER_TAG] + le_bytes(*amount)) by {
                    assert(v@.subrange(1, 9) == le_bytes(*amount));
                    assert forall|i: int| 1 <= i < 9 implies v@[i] == le_bytes(*amount)[i - 1] by {
                        assert(v@.subrange(1, 9)[i - 1] == v@[i]);
                    }
                }
                v
            },
            TokenOp::SetOwner { new_owner, .. } => {
                let mut v: Vec<u8> = vec![SET_AUTHORITY_TAG, ACCOUNT_OWNER_KIND, 1u8];
                let mut i: usize = 0;
                while i < 32
                    invariant
                        i <= 32,
                        v@ == seq![SET_AUTHORITY_TAG, ACCOUNT_OWNER_KIND, 1u8] + new_owner@.subrange(
                            0,
                            i as int,
                        ),
                    decreases 32 - i,
                {
                    v.push(new_owner[i]);
                    i = i + 1;
                    assert(v@ =~= seq![SET_AUTHORITY_TAG, ACCOUNT_OWNER_KIND, 1u8]
                        + new_owner@.subrange(0, i as int));
                }
                assert(new_owner@.subrange(0, 32) =~= new_owner@);
                v
            },
            TokenOp::CloseAccount { .. } => {
                let v: Vec<u8> = vec![CLOSE_ACCOUNT_TAG];
                assert(v@ =~= seq![CLOSE_ACCOUNT_TAG]);
                v
            },
        }
    }
}

/// Size of a token account's data.
pub const TOKEN_ACCOUNT_LEN: usize = 165;

/// Offset of a token account's state byte; 1 is an initialized, unfrozen account.
pub const TOKEN_STATE_OFFSET: usize = 108;

/// Whether `data` is the data of an initialized, unfrozen token account.
pub open spec fn token_account_usable(data: Seq<u8>) -> bool {
    data.len() == 165 && data[108] == 1
}

/// Reads a token account from its key, its native balance and its data: the
/// mint at offset 0, the owner at 32, the amount at 64.
pub fn read_token_account(key: Key, lamports: u64, data: &[u8]) -> (r: Result<
    TokenAccount,
    ProcessError,
>)
    ensures
        r is Ok <==> token_account_usable(data@),
        r is Ok ==> r->Ok_0 == (TokenAccount {
            key,
            mint: r->Ok_0.mint,
            owner: r->Ok_0.owner,
            amount: le_value(data@.subrange(64, 72)),
            lamports,
        }) && r->Ok_0.mint@ == data@.subrange(0, 32) && r->Ok_0.owner@ == data@.subrange(32, 64),
        r is Err ==> r->Err_0 == ProcessError::InvalidAccountData,
{
    if data.len() != TOKEN_ACCOUNT_LEN || data[TOKEN_STATE_OFFSET] != 1 {
        return Err(ProcessError::InvalidAccountData);
    }
    Ok(
        TokenAccount {
            key,
            mint: read_key(data, 0),
            owner: read_key(data, 32),
            amount: read_u64_le(data, 64),
            lamports,
        },
    )
}

} // verus!
