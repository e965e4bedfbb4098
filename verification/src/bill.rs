//! The bill record, the identities it names, and the size of its storage.

use vstd::prelude::*;
use vstd::string::StringSliceAdditionalSpecFns;
use vstd::utf8::encode_utf8;

verus! {

/// Number of bytes in an identity.
pub const IDENTITY_LEN: usize = 32;

/// Bytes of the tag that opens every stored bill.
pub const HEADER_LEN: usize = 8;

/// Bytes of the length prefix in front of each text field.
pub const LENGTH_PREFIX_LEN: usize = 4;

/// Bytes left free behind the encoded record when its storage is allocated.
pub const SAFETY_MARGIN: usize = 200;

/// Bytes of an encoded record that do not depend on its text fields:
/// tag, creator, two length prefixes, amount, timestamp and the paid flag.
pub const FIXED_LEN: usize = 65;

/// Longest text, in bytes, that a length prefix can announce.
pub const MAX_TEXT_LEN: usize = 0xffff_ffff;

/// The key of an account: a creator, a payer, or the address of a bill.
#[derive(Clone, Copy, Debug, PartialEq, Eq, Hash)]
pub struct Identity {
    pub bytes: [u8; 32],
}

impl View for Identity {
    type V = Seq<u8>;

    open spec fn view(&self) -> Seq<u8> {
        self.bytes@
    }
}

impl Identity {
    /// The identity with these bytes.
    pub fn new(bytes: [u8; 32]) -> (id: Identity)
        ensures
            id@ == bytes@,
            id.bytes == bytes,
    {
        Identity { bytes }
    }

    /// Whether two identities are the same key.
    pub fn same(&self, other: &Identity) -> (equal: bool)
        ensures
            equal == (self@ == other@),
    {
        let mut i: usize = 0;
        while i < 32
            invariant
                i <= 32,
                forall|j: int| 0 <= j < i ==> self.bytes@[j] == other.bytes@[j],
            decreases 32 - i,
        {
            if self.bytes[i] != other.bytes[i] {
                return false;
            }
            i += 1;
        }
        assert(self@ =~= other@);
        true
    }
}

/// Why an operation on a bill was refused.
#[derive(Clone, Copy, Debug, PartialEq, Eq, Structural)]
pub enum BillError {
    /// The payer's balance is below the amount owed.
    InsufficientFunds,
    /// Someone other than the creator tried to delete the bill.
    UnauthorizedDeletion,
    /// The bill has been settled before.
    AlreadyPaid,
    /// Stored bytes are no bill, an address is not the derived one, or a
    /// record cannot be laid out.
    CorruptRecord,
    /// A bill is already stored at the address.
    AccountAlreadyExists,
    /// No bill is stored at the address.
    AccountNotFound,
    /// The acting party did not sign.
    MissingSigner,
    /// A balance would leave the range of 64 bits.
    BalanceOverflow,
}

impl BillError {
    /// The text of each error.
    pub open spec fn spec_message(self) -> Seq<char> {
        match self {
            BillError::InsufficientFunds => "Insufficient funds for bill payment"@,
            BillError::UnauthorizedDeletion => "Only the creator can delete this bill"@,
            BillError::AlreadyPaid => "This bill has already been paid"@,
            BillError::CorruptRecord => "The stored bill record is corrupt"@,
            BillError::AccountAlreadyExists => "A bill with this name already exists"@,
            BillError::AccountNotFound => "No bill is stored at this address"@,
            BillError::MissingSigner => "The acting party has not signed"@,
            BillError::BalanceOverflow => "The balance would overflow"@,
        }
    }

    /// The text shown to a caller for this error.
    pub fn message(&self) -> (text: &'static str)
        ensures
            text@ == self.spec_message(),
    {
        match self {
            BillError::InsufficientFunds => "Insufficient funds for bill payment",
            BillError::UnauthorizedDeletion => "Only the creator can delete this bill",
            BillError::AlreadyPaid => "This bill has already been paid",
            BillError::CorruptRecord => "The stored bill record is corrupt",
            BillError::AccountAlreadyExists => "A bill with this name already exists",
            BillError::AccountNotFound => "No bill is stored at this address",
            BillError::MissingSigner => "The acting party has not signed",
            BillError::BalanceOverflow => "The balance would overflow",
        }
    }
}

/// A bill as it is stored.
#[derive(Clone, Debug, PartialEq, Eq)]
pub struct Bill {
    pub creator: Identity,
    pub name: String,
    pub total_amount: u64,
    pub participant_name: String,
    pub created_at: i64,
    pub is_paid: bool,
}

/// What a bill holds, as mathematical values.
pub struct BillView {
    pub creator: Seq<u8>,
    pub name: Seq<char>,
    pub total_amount: u64,
    pub participant_name: Seq<char>,
    pub created_at: i64,
    pub is_paid: bool,
}

impl View for Bill {
    type V = BillView;

    open spec fn view(&self) -> BillView {
        BillView {
            creator: self.creator@,
            name: self.name@,
            total_amount: self.total_amount,
            participant_name: self.participant_name@,
            created_at: self.created_at,
            is_paid: self.is_paid,
        }
    }
}

/// Bytes of storage for a bill whose two texts take `name_len` and
/// `participant_len` bytes: the fixed part, both texts, and the margin.
pub open spec fn spec_space(name_len: nat, participant_len: nat) -> nat {
    FIXED_LEN as nat + name_len + participant_len + SAFETY_MARGIN as nat
}

/// Whether a bill with these two texts can be laid out: each text fits its
/// length prefix and the storage size fits a machine word.
pub open spec fn layout_fits(name: Seq<char>, participant_name: Seq<char>) -> bool {
    &&& encode_utf8(name).len() <= MAX_TEXT_LEN
    &&& encode_utf8(participant_name).len() <= MAX_TEXT_LEN
    &&& spec_space(encode_utf8(name).len(), encode_utf8(participant_name).len()) <= usize::MAX
}

impl Bill {
    /// Bytes to allocate for a bill with these two texts.
    pub fn space(name: &str, participant_name: &str) -> (size: usize)
        requires
            spec_space(name.spec_bytes().len(), participant_name.spec_bytes().len()) <= usize::MAX,
        ensures
            size == spec_space(name.spec_bytes().len(), participant_name.spec_bytes().len()),
    {
        8 + 32 + 4 + name.as_bytes().len() + 8 + 4 + participant_name.as_bytes().len() + 8 + 1 + 200
    }

    /// As `space`, for any two texts: `None` where the bill cannot be laid out.
    pub fn checked_space(name: &str, participant_name: &str) -> (size: Option<usize>)
        ensures
            size.is_some() == layout_fits(name@, participant_name@),
            size.is_some() ==> size.unwrap() == spec_space(
                name.spec_bytes().len(),
                participant_name.spec_bytes().len(),
            ),
    {
        let n: usize = name.as_bytes().len();
        let p: usize = participant_name.as_bytes().len();
        if n > MAX_TEXT_LEN || p > MAX_TEXT_LEN {
            return None;
        }
        let fixed: usize = FIXED_LEN + SAFETY_MARGIN;
        if n > usize::MAX - fixed {
            return None;
        }
        if p > usize::MAX - fixed - n {
            return None;
        }
        Some(Bill::space(name, participant_name))
    }
}

} // verus!
