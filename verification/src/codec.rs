//! The byte layout of a stored bill.
//!
//! A record is the tag, the creator's 32 bytes, the name behind a
//! little-endian 32-bit length, the amount as 8 little-endian bytes, the
//! participant's name behind its length, the timestamp as 8 little-endian
//! bytes, and one byte for the paid flag. Storage is allocated with a margin
//! behind the record, so a decoder reads the record from the front of a
//! buffer and lets the rest be.

use vstd::prelude::*;
use vstd::bytes::{
    lemma_auto_spec_u32_to_from_le_bytes, lemma_auto_spec_u64_to_from_le_bytes,
    spec_u32_from_le_bytes, spec_u32_to_le_bytes, spec_u64_from_le_bytes, spec_u64_to_le_bytes,
    u32_from_le_bytes, u32_to_le_bytes, u64_from_le_bytes, u64_to_le_bytes,
};
use vstd::slice::slice_subrange;
use vstd::string::StringSliceAdditionalSpecFns;
use vstd::utf8::{
    decode_utf8, decode_utf8_encode_utf8, encode_utf8, encode_utf8_decode_utf8,
    encode_utf8_valid_utf8, valid_utf8,
};
use crate::bill::{
    spec_space, Bill, BillError, BillView, Identity, FIXED_LEN, IDENTITY_LEN, MAX_TEXT_LEN,
    SAFETY_MARGIN,
};

verus! {

/// The eight bytes that open every stored bill.
pub const RECORD_TAG: [u8; 8] = [70, 76, 251, 175, 212, 227, 212, 179];

/// Whether a bill can be encoded: its creator is a whole identity and each
/// text fits its length prefix.
pub open spec fn encodable(bill: BillView) -> bool {
    &&& bill.creator.len() == IDENTITY_LEN
    &&& encode_utf8(bill.name).len() <= MAX_TEXT_LEN
    &&& encode_utf8(bill.participant_name).len() <= MAX_TEXT_LEN
}

/// A text field: the length of its bytes, then the bytes.
pub open spec fn spec_encode_text(text: Seq<char>) -> Seq<u8> {
    spec_u32_to_le_bytes(encode_utf8(text).len() as u32) + encode_utf8(text)
}

/// The paid flag as a byte.
pub open spec fn spec_flag(is_paid: bool) -> u8 {
    if is_paid {
        1
    } else {
        0
    }
}

/// The bytes of a bill, field by field in the order of the record.
pub open spec fn spec_encode(bill: BillView) -> Seq<u8> {
    RECORD_TAG@ + bill.creator + spec_encode_text(bill.name) + spec_u64_to_le_bytes(bill.total_amount)
        + spec_encode_text(bill.participant_name) + spec_u64_to_le_bytes(bill.created_at as u64)
        + seq![spec_flag(bill.is_paid)]
}

/// What the storage of a bill holds: the record, and behind it the margin,
/// zeroed.
pub open spec fn spec_storage(bill: BillView) -> Seq<u8> {
    spec_encode(bill) + Seq::new(SAFETY_MARGIN as nat, |i: int| 0u8)
}

/// The bill at the front of `buf`, if there is one: the tag, every field
/// whole, both texts valid UTF-8, and the flag 0 or 1. Bytes behind the
/// record are not looked at.
pub open spec fn spec_decode(buf: Seq<u8>) -> Option<BillView> {
    if buf.len() < 44 || buf.subrange(0, 8) != RECORD_TAG@ {
        None
    } else {
        let n = spec_u32_from_le_bytes(buf.subrange(40, 44)) as int;
        if buf.len() < 56 + n {
            None
        } else {
            let p = spec_u32_from_le_bytes(buf.subrange(52 + n, 56 + n)) as int;
            if buf.len() < 65 + n + p {
                None
            } else {
                let name = buf.subrange(44, 44 + n);
                let participant_name = buf.subrange(56 + n, 56 + n + p);
                let flag = buf[64 + n + p];
                if !valid_utf8(name) || !valid_utf8(participant_name) || flag > 1 {
                    None
                } else {
                    Some(
                        BillView {
                            creator: buf.subrange(8, 40),
                            name: decode_utf8(name),
                            total_amount: spec_u64_from_le_bytes(buf.subrange(44 + n, 52 + n)),
                            participant_name: decode_utf8(participant_name),
                            created_at: spec_u64_from_le_bytes(
                                buf.subrange(56 + n + p, 64 + n + p),
                            ) as i64,
                            is_paid: flag == 1,
                        },
                    )
                }
            }
        }
    }
}

/// Calls `String::from_utf8`: the text that the bytes encode, or `None`
/// where they are not valid UTF-8.
#[verifier::external_body]
fn text_from_utf8(bytes: Vec<u8>) -> (text: Option<String>)
    ensures
        match text {
            Some(s) => valid_utf8(bytes@) && s@ == decode_utf8(bytes@),
            None => !valid_utf8(bytes@),
        },
{
    match String::from_utf8(bytes) {
        Ok(text) => Some(text),
        Err(_) => None,
    }
}

/// Puts `src` behind what `out` holds.
fn append_bytes(out: &mut Vec<u8>, src: &[u8])
    ensures
        final(out)@ == old(out)@ + src@,
{
    let mut i: usize = 0;
    while i < src.len()
        invariant
            i <= src.len(),
            out@ == old(out)@ + src@.subrange(0, i as int),
        decreases src.len() - i,
    {
        out.push(src[i]);
        i += 1;
        assert(old(out)@ + src@.subrange(0, i as int) =~= (old(out)@ + src@.subrange(0, i - 1)).push(
            src@[i - 1],
        ));
    }
    assert(src@.subrange(0, i as int) =~= src@);
}

/// Puts a text field behind what `out` holds: its length, then its bytes.
fn append_text(out: &mut Vec<u8>, text: &str)
    requires
        text.spec_bytes().len() <= MAX_TEXT_LEN,
    ensures
        final(out)@ == old(out)@ + spec_encode_text(text@),
{
    let bytes = text.as_bytes();
    let len: usize = bytes.len();
    let prefix = u32_to_le_bytes(len as u32);
    append_bytes(out, prefix.as_slice());
    append_bytes(out, bytes);
    assert(out@ =~= old(out)@ + spec_encode_text(text@));
}

impl Bill {
    /// The stored form of the bill. A bill whose text does not fit its
    /// length prefix has none.
    pub fn encode(&self) -> (outcome: Result<Vec<u8>, BillError>)
        ensures
            match outcome {
                Ok(bytes) => {
                    &&& encodable(self@)
                    &&& bytes@ == spec_encode(self@)
                    &&& bytes@.len() + SAFETY_MARGIN == spec_space(
                        encode_utf8(self.name@).len(),
                        encode_utf8(self.participant_name@).len(),
                    )
                },
                Err(error) => !encodable(self@) && error == BillError::CorruptRecord,
            },
    {
        if self.name.as_str().as_bytes().len() > MAX_TEXT_LEN
            || self.participant_name.as_str().as_bytes().len() > MAX_TEXT_LEN {
            return Err(BillError::CorruptRecord);
        }
        let mut out: Vec<u8> = Vec::new();
        append_bytes(&mut out, RECORD_TAG.as_slice());
        append_bytes(&mut out, self.creator.bytes.as_slice());
        append_text(&mut out, self.name.as_str());
        let amount = u64_to_le_bytes(self.total_amount);
        append_bytes(&mut out, amount.as_slice());
        append_text(&mut out, self.participant_name.as_str());
        let stamp = u64_to_le_bytes(#[verifier::truncate] (self.created_at as u64));
        append_bytes(&mut out, stamp.as_slice());
        out.push(if self.is_paid { 1u8 } else { 0u8 });
        assert(out@ =~= spec_encode(self@));
        proof {
            encoded_len_matches_space(self@);
        }
        Ok(out)
    }

    /// The bytes of the bill's storage: the record with the zeroed margin
    /// behind it, as long as the space computed for its two texts.
    pub fn to_storage(&self) -> (outcome: Result<Vec<u8>, BillError>)
        ensures
            match outcome {
                Ok(bytes) => {
                    &&& encodable(self@)
                    &&& bytes@ == spec_storage(self@)
                    &&& bytes@.len() == spec_space(
                        encode_utf8(self.name@).len(),
                        encode_utf8(self.participant_name@).len(),
                    )
                    &&& spec_decode(bytes@) == Some(self@)
                },
                Err(error) => !encodable(self@) && error == BillError::CorruptRecord,
            },
    {
        let mut out = match self.encode() {
            Ok(bytes) => bytes,
            Err(error) => {
                return Err(error);
            },
        };
        let mut i: usize = 0;
        while i < SAFETY_MARGIN
            invariant
                i <= SAFETY_MARGIN,
                out@ == spec_encode(self@) + Seq::new(i as nat, |j: int| 0u8),
            decreases SAFETY_MARGIN - i,
        {
            out.push(0u8);
            i += 1;
            assert(out@ =~= spec_encode(self@) + Seq::new(i as nat, |j: int| 0u8));
        }
        proof {
            storage_holds_the_bill(self@);
        }
        Ok(out)
    }

    /// Reads the bill at the front of `buf`. Fails where the buffer is too
    /// short for the record it announces or is not shaped as one.
    pub fn decode(buf: &[u8]) -> (outcome: Result<Bill, BillError>)
        ensures
            match outcome {
                Ok(bill) => spec_decode(buf@) == Some(bill@),
                Err(error) => spec_decode(buf@).is_none() && error == BillError::CorruptRecord,
            },
    {
        let len: usize = buf.len();
        if len < 44 {
            return Err(BillError::CorruptRecord);
        }
        let mut creator: [u8; 32] = [0u8; 32];
        let mut i: usize = 0;
        while i < 8
            invariant
                i <= 8,
                len == buf@.len(),
                len >= 44,
                forall|j: int| 0 <= j < i ==> buf@[j] == RECORD_TAG@[j],
            decreases 8 - i,
        {
            if buf[i] != RECORD_TAG[i] {
                assert(buf@.subrange(0, 8)[i as int] != RECORD_TAG@[i as int]);
                return Err(BillError::CorruptRecord);
            }
            i += 1;
        }
        assert(buf@.subrange(0, 8) =~= RECORD_TAG@);
        let mut k: usize = 0;
        while k < 32
            invariant
                k <= 32,
                len == buf@.len(),
                len >= 44,
                forall|j: int| 0 <= j < k ==> creator@[j] == buf@[8 + j],
            decreases 32 - k,
        {
            creator[k] = buf[8 + k];
            k += 1;
        }
        assert(creator@ =~= buf@.subrange(8, 40));
        let n: usize = u32_from_le_bytes(slice_subrange(buf, 40, 44)) as usize;
        if len - 44 < 12 || len - 56 < n {
            return Err(BillError::CorruptRecord);
        }
        let total_amount: u64 = u64_from_le_bytes(slice_subrange(buf, 44 + n, 52 + n));
        let p: usize = u32_from_le_bytes(slice_subrange(buf, 52 + n, 56 + n)) as usize;
        if len - 56 - n < 9 || len - 65 - n < p {
            return Err(BillError::CorruptRecord);
        }
        let stamp: u64 = u64_from_le_bytes(slice_subrange(buf, 56 + n + p, 64 + n + p));
        let flag: u8 = buf[64 + n + p];
        let name_bytes = vstd::slice::slice_to_vec(slice_subrange(buf, 44, 44 + n));
        let participant_bytes = vstd::slice::slice_to_vec(slice_subrange(buf, 56 + n, 56 + n + p));
        let name = match text_from_utf8(name_bytes) {
            Some(text) => text,
            None => {
                return Err(BillError::CorruptRecord);
            },
        };
        let participant_name = match text_from_utf8(participant_bytes) {
            Some(text) => text,
            None => {
                return Err(BillError::CorruptRecord);
            },
        };
        if flag > 1 {
            return Err(BillError::CorruptRecord);
        }
        Ok(
            Bill {
                creator: Identity { bytes: creator },
                name,
                total_amount,
                participant_name,
                created_at: #[verifier::truncate] (stamp as i64),
                is_paid: flag == 1,
            },
        )
    }
}

/// The size of a record is exact: the encoded bill is as long as the fixed
/// part and its two texts, so the space computed for the texts is the
/// encoded length plus the safety margin.
pub proof fn encoded_len_matches_space(bill: BillView)
    requires
        encodable(bill),
    ensures
        spec_encode(bill).len() == FIXED_LEN + encode_utf8(bill.name).len() + encode_utf8(
            bill.participant_name,
        ).len(),
        spec_encode(bill).len() + SAFETY_MARGIN == spec_space(
            encode_utf8(bill.name).len(),
            encode_utf8(bill.participant_name).len(),
        ),
{
    lemma_auto_spec_u32_to_from_le_bytes();
    lemma_auto_spec_u64_to_from_le_bytes();
}

/// Decoding undoes encoding: the bill read from the front of a buffer that
/// starts with an encoded bill, whatever lies behind it, is that bill.
pub proof fn decode_inverts_encode(bill: BillView, slack: Seq<u8>)
    requires
        encodable(bill),
    ensures
        spec_decode(spec_encode(bill) + slack) == Some(bill),
{
    lemma_auto_spec_u32_to_from_le_bytes();
    lemma_auto_spec_u64_to_from_le_bytes();
    encoded_len_matches_space(bill);
    let name = encode_utf8(bill.name);
    let participant = encode_utf8(bill.participant_name);
    let n = name.len() as int;
    let p = participant.len() as int;
    let buf = spec_encode(bill) + slack;
    assert(buf.subrange(0, 8) =~= RECORD_TAG@);
    assert(buf.subrange(8, 40) =~= bill.creator);
    assert(buf.subrange(40, 44) =~= spec_u32_to_le_bytes(n as u32));
    assert(buf.subrange(44, 44 + n) =~= name);
    assert(buf.subrange(44 + n, 52 + n) =~= spec_u64_to_le_bytes(bill.total_amount));
    assert(buf.subrange(52 + n, 56 + n) =~= spec_u32_to_le_bytes(p as u32));
    assert(buf.subrange(56 + n, 56 + n + p) =~= participant);
    assert(buf.subrange(56 + n + p, 64 + n + p) =~= spec_u64_to_le_bytes(bill.created_at as u64));
    assert(buf[64 + n + p] == spec_flag(bill.is_paid));
    encode_utf8_valid_utf8(bill.name);
    encode_utf8_valid_utf8(bill.participant_name);
    encode_utf8_decode_utf8(bill.name);
    encode_utf8_decode_utf8(bill.participant_name);
    let stamp = bill.created_at;
    assert((stamp as u64) as i64 == stamp) by (bit_vector);
    assert(spec_decode(buf).unwrap() =~= bill);
}

/// Storage is sized exactly and reads back: the storage of a bill is as long
/// as the space computed for its two texts, and decoding it gives the bill.
pub proof fn storage_holds_the_bill(bill: BillView)
    requires
        encodable(bill),
    ensures
        spec_storage(bill).len() == spec_space(
            encode_utf8(bill.name).len(),
            encode_utf8(bill.participant_name).len(),
        ),
        spec_decode(spec_storage(bill)) == Some(bill),
{
    encoded_len_matches_space(bill);
    decode_inverts_encode(bill, Seq::new(SAFETY_MARGIN as nat, |i: int| 0u8));
}

/// Encoding undoes decoding: a buffer from which a bill is read starts with
/// exactly the encoding of that bill, so no two records read as the same
/// bill.
pub proof fn encode_inverts_decode(buf: Seq<u8>, bill: BillView)
    requires
        spec_decode(buf) == Some(bill),
    ensures
        encodable(bill),
        spec_encode(bill).len() <= buf.len(),
        buf.subrange(0, spec_encode(bill).len() as int) == spec_encode(bill),
{
    lemma_auto_spec_u32_to_from_le_bytes();
    lemma_auto_spec_u64_to_from_le_bytes();
    let n = spec_u32_from_le_bytes(buf.subrange(40, 44)) as int;
    let p = spec_u32_from_le_bytes(buf.subrange(52 + n, 56 + n)) as int;
    let name = buf.subrange(44, 44 + n);
    let participant = buf.subrange(56 + n, 56 + n + p);
    decode_utf8_encode_utf8(name);
    decode_utf8_encode_utf8(participant);
    assert(encode_utf8(bill.name) == name);
    assert(encode_utf8(bill.participant_name) == participant);
    assert(spec_u32_to_le_bytes(n as u32) == buf.subrange(40, 44));
    assert(spec_u32_to_le_bytes(p as u32) == buf.subrange(52 + n, 56 + n));
    let stamp = spec_u64_from_le_bytes(buf.subrange(56 + n + p, 64 + n + p));
    assert((stamp as i64) as u64 == stamp) by (bit_vector);
    assert(spec_u64_to_le_bytes(bill.created_at as u64) == buf.subrange(56 + n + p, 64 + n + p));
    assert(spec_u64_to_le_bytes(bill.total_amount) == buf.subrange(44 + n, 52 + n));
    encoded_len_matches_space(bill);
    assert(buf.subrange(0, 65 + n + p) =~= spec_encode(bill));
}

} // verus!
