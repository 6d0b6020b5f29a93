//! The persistent escrow record and its fixed 105-byte layout:
//! offset 0 the initialization flag (0 or 1), 1 the initializer's key,
//! 33 the temporary token account's key, 65 the initializer's receiving
//! account's key, 97 the expected amount as a little-endian `u64`.
use vstd::prelude::*;
use crate::bytes::{
    Key, le_bytes, le_value, lemma_le_value_of_bytes, read_key, read_u64_le, write_key,
    write_u64_le,
};
use crate::error::ProcessError;

verus! {

/// Size of an encoded record in bytes.
pub const ESCROW_LEN: usize = 105;

/// One in-flight escrow.
#[derive(Debug, Clone, Copy, PartialEq, Eq)]
pub struct Escrow {
    pub is_initialized: bool,
    /// Party A, who locked the tokens and receives the proceeds and the rent.
    pub initializer_sender_pubkey: Key,
    /// The token account that holds party A's locked tokens.
    pub temp_token_account_pubkey: Key,
    /// Party A's token account that receives what party B pays.
    pub initializer_recipient_pubkey: Key,
    /// The amount party A asks for.
    pub expected_amount: u64,
}

/// An escrow record with its keys as byte sequences.
pub struct EscrowView {
    pub is_initialized: bool,
    pub initializer_sender_pubkey: Seq<u8>,
    pub temp_token_account_pubkey: Seq<u8>,
    pub initializer_recipient_pubkey: Seq<u8>,
    pub expected_amount: u64,
}

impl EscrowView {
    /// Every key is 32 bytes long.
    pub open spec fn well_formed(self) -> bool {
        &&& self.initializer_sender_pubkey.len() == 32
        &&& self.temp_token_account_pubkey.len() == 32
        &&& self.initializer_recipient_pubkey.len() == 32
    }
}

impl View for Escrow {
    type V = EscrowView;

    open spec fn view(&self) -> EscrowView {
        EscrowView {
            is_initialized: self.is_initialized,
            initializer_sender_pubkey: self.initializer_sender_pubkey@,
            temp_token_account_pubkey: self.temp_token_account_pubkey@,
            initializer_recipient_pubkey: self.initializer_recipient_pubkey@,
            expected_amount: self.expected_amount,
        }
    }
}

/// The flag byte of a record.
pub open spec fn flag_byte(b: bool) -> u8 {
    if b {
        1
    } else {
        0
    }
}

/// The 105 bytes of a record.
pub open spec fn escrow_encode(e: EscrowView) -> Seq<u8> {
    seq![flag_byte(e.is_initialized)] + e.initializer_sender_pubkey + e.temp_token_account_pubkey
        + e.initializer_recipient_pubkey + le_bytes(e.expected_amount)
}

/// Whether `s` starts with a record: at least 105 bytes, and a flag byte of 0 or 1.
pub open spec fn escrow_decodes(s: Seq<u8>) -> bool {
    s.len() >= 105 && s[0] <= 1
}

/// The record that the first 105 bytes of `s` hold; bytes past those are ignored.
pub open spec fn escrow_decode(s: Seq<u8>) -> EscrowView
    recommends
        escrow_decodes(s),
{
    EscrowView {
        is_initialized: s[0] == 1,
        initializer_sender_pubkey: s.subrange(1, 33),
        temp_token_account_pubkey: s.subrange(33, 65),
        initializer_recipient_pubkey: s.subrange(65, 97),
        expected_amount: le_value(s.subrange(97, 105)),
    }
}

impl Escrow {
    /// Whether the record describes a live escrow.
    pub fn is_initialized(&self) -> (r: bool)
        ensures
            r == self.is_initialized,
    {
        self.is_initialized
    }

    /// Decodes the record held in the first 105 bytes of `src`.
    pub fn unpack_from_slice(src: &[u8]) -> (r: Result<Escrow, ProcessError>)
        ensures
            r is Ok <==> escrow_decodes(src@),
            r is Ok ==> r->Ok_0@ == escrow_decode(src@),
            r is Err ==> r->Err_0 == ProcessError::InvalidAccountData,
    {
        if src.len() < ESCROW_LEN {
            return Err(ProcessError::InvalidAccountData);
        }
        let flag = src[0];
        let is_initialized = if flag == 0 {
            false
        } else if flag == 1 {
            true
        } else {
            return Err(ProcessError::InvalidAccountData);
        };
        Ok(Escrow {
            is_initialized,
            initializer_sender_pubkey: read_key(src, 1),
            temp_token_account_pubkey: read_key(src, 33),
            initializer_recipient_pubkey: read_key(src, 65),
            expected_amount: read_u64_le(src, 97),
        })
    }

    /// Writes the record into the first 105 bytes of `dst`, leaving the rest as it was.
    pub fn pack_into_slice(&self, dst: &mut [u8])
        requires
            old(dst)@.len() >= 105,
        ensures
            final(dst)@ == escrow_encode(self@) + old(dst)@.subrange(105, old(dst)@.len() as int),
    {
        dst[0] = if self.is_initialized {
            1u8
        } else {
            0u8
        };
        let ghost d0 = dst@;
        write_key(dst, 1, &self.initializer_sender_pubkey);
        let ghost d1 = dst@;
        write_key(dst, 33, &self.temp_token_account_pubkey);
        let ghost d2 = dst@;
        write_key(dst, 65, &self.initializer_recipient_pubkey);
        let ghost d3 = dst@;
        write_u64_le(dst, 97, self.expected_amount);
        proof {
            let e = escrow_encode(self@);
            let rest = old(dst)@.subrange(105, old(dst)@.len() as int);
            assert forall|i: int| 0 <= i < dst@.len() implies #[trigger] dst@[i] == (e + rest)[i] by {
                if i == 0 {
                } else if i < 33 {
                    assert(d1.subrange(1, 33)[i - 1] == d1[i]);
                } else if i < 65 {
                    assert(d2.subrange(33, 65)[i - 33] == d2[i]);
                } else if i < 97 {
                    assert(d3.subrange(65, 97)[i - 65] == d3[i]);
                } else if i < 105 {
                    assert(dst@.subrange(97, 105)[i - 97] == dst@[i]);
                }
            }
            assert(dst@ =~= e + rest);
        }
    }
}

/// Decoding the bytes of a well-formed record gives the record back.
pub proof fn lemma_decode_encode(e: EscrowView)
    requires
        e.well_formed(),
    ensures
        escrow_decodes(escrow_encode(e)),
        escrow_decode(escrow_encode(e)) == e,
{
    let s = escrow_encode(e);
    lemma_le_value_of_bytes(e.expected_amount);
    assert(s.subrange(1, 33) =~= e.initializer_sender_pubkey);
    assert(s.subrange(33, 65) =~= e.temp_token_account_pubkey);
    assert(s.subrange(65, 97) =~= e.initializer_recipient_pubkey);
    assert(s.subrange(97, 105) =~= le_bytes(e.expected_amount));
}

/// Two records with the same view are the same record.
pub proof fn lemma_view_determines_escrow(a: Escrow, b: Escrow)
    requires
        a@ == b@,
    ensures
        a == b,
{
    assert(a.initializer_sender_pubkey =~= b.initializer_sender_pubkey);
    assert(a.temp_token_account_pubkey =~= b.temp_token_account_pubkey);
    assert(a.initializer_recipient_pubkey =~= b.initializer_recipient_pubkey);
}

/// A well-formed record followed by any bytes decodes to that record.
pub proof fn lemma_decode_encode_prefix(e: EscrowView, tail: Seq<u8>)
    requires
        e.well_formed(),
    ensures
        escrow_decodes(escrow_encode(e) + tail),
        escrow_decode(escrow_encode(e) + tail) == e,
{
    let s = escrow_encode(e);
    lemma_decode_encode(e);
    assert((s + tail).subrange(1, 33) =~= s.subrange(1, 33));
    assert((s + tail).subrange(33, 65) =~= s.subrange(33, 65));
    assert((s + tail).subrange(65, 97) =~= s.subrange(65, 97));
    assert((s + tail).subrange(97, 105) =~= s.subrange(97, 105));
}

/// Unpacking what a record was packed into gives that record back, whatever
/// bytes followed it.
pub proof fn lemma_unpack_of_pack(e: Escrow, d: Escrow, tail: Seq<u8>)
    requires
        d@ == escrow_decode(escrow_encode(e@) + tail),
    ensures
        escrow_decodes(escrow_encode(e@) + tail),
        d == e,
{
    lemma_decode_encode_prefix(e@, tail);
    lemma_view_determines_escrow(d, e);
}

/// A flag byte other than 0 or 1 never decodes.
pub proof fn lemma_bad_flag_rejected(s: Seq<u8>)
    requires
        s.len() > 0,
        s[0] != 0 && s[0] != 1,
    ensures
        !escrow_decodes(s),
{
}

/// Fewer than 105 bytes never decode.
pub proof fn lemma_short_input_rejected(s: Seq<u8>)
    requires
        s.len() < 105,
    ensures
        !escrow_decodes(s),
{
}

} // verus!
