//! The three operations on a bill: create, pay, delete.
//!
//! Each takes the accounts it touches as plain values, checks every
//! precondition before it changes anything, and either applies its whole
//! effect or returns an error and leaves the accounts as they were.

use vstd::prelude::*;
use crate::address::{derive_address, spec_derive_address};
use crate::bill::{layout_fits, spec_space, Bill, BillError, BillView, Identity};
use vstd::utf8::encode_utf8;

verus! {

/// A funding account: the creator's or the payer's.
#[derive(Clone, Debug, PartialEq, Eq)]
pub struct Wallet {
    pub key: Identity,
    /// The balance that the holder can dispose of.
    pub lamports: u64,
    /// Whether the holder has authorized the operation at hand.
    pub is_signer: bool,
}

/// What a wallet holds, as mathematical values.
pub struct WalletView {
    pub key: Seq<u8>,
    pub lamports: u64,
    pub is_signer: bool,
}

impl View for Wallet {
    type V = WalletView;

    open spec fn view(&self) -> WalletView {
        WalletView { key: self.key@, lamports: self.lamports, is_signer: self.is_signer }
    }
}

/// The storage slot of a bill: its address, the value held against it, the
/// bytes allocated for it, and the record, if one is stored there. The
/// balance counts what the operations here move; what the host keeps back
/// for the allocation is the host's to account for.
#[derive(Clone, Debug, PartialEq, Eq)]
pub struct BillAccount {
    pub address: Identity,
    pub lamports: u64,
    pub space: usize,
    pub record: Option<Bill>,
}

/// What a slot holds, as mathematical values.
pub struct BillAccountView {
    pub address: Seq<u8>,
    pub lamports: u64,
    pub space: usize,
    pub record: Option<BillView>,
}

impl View for BillAccount {
    type V = BillAccountView;

    open spec fn view(&self) -> BillAccountView {
        BillAccountView {
            address: self.address@,
            lamports: self.lamports,
            space: self.space,
            record: match self.record {
                Some(bill) => Some(bill@),
                None => None,
            },
        }
    }
}

impl BillAccount {
    /// An empty slot at `address`: nothing stored, nothing held.
    pub fn vacant(address: Identity) -> (slot: BillAccount)
        ensures
            slot@ == vacant_slot(address@),
    {
        BillAccount { address, lamports: 0, space: 0, record: None }
    }
}

/// The empty slot at `address`.
pub open spec fn vacant_slot(address: Seq<u8>) -> BillAccountView {
    BillAccountView { address, lamports: 0, space: 0, record: None }
}

/// Whether a slot's space and balance agree with what is stored in it: an
/// empty slot has neither; a stored bill lies in exactly the space that its
/// two texts call for, and the slot holds nothing before the bill is paid and
/// the amount owed after.
pub open spec fn slot_consistent(bill: BillAccountView) -> bool {
    match bill.record {
        None => bill.lamports == 0 && bill.space == 0,
        Some(record) => {
            &&& layout_fits(record.name, record.participant_name)
            &&& bill.space == spec_space(
                encode_utf8(record.name).len(),
                encode_utf8(record.participant_name).len(),
            )
            &&& bill.lamports == if record.is_paid {
                record.total_amount
            } else {
                0
            }
        },
    }
}

/// The accounts of a create: the slot to fill and the creator.
#[derive(Clone, Debug, PartialEq, Eq)]
pub struct CreateBill {
    pub bill: BillAccount,
    pub creator: Wallet,
}

/// The accounts of a payment: the bill and the payer.
#[derive(Clone, Debug, PartialEq, Eq)]
pub struct PayBill {
    pub bill: BillAccount,
    pub payer: Wallet,
}

/// The accounts of a deletion: the bill and the party that asks for it.
#[derive(Clone, Debug, PartialEq, Eq)]
pub struct DeleteBill {
    pub bill: BillAccount,
    pub creator: Wallet,
}

/// What a create asks for, besides the accounts.
pub struct CreateArgs {
    pub name: Seq<char>,
    pub total_amount: u64,
    pub participant_name: Seq<char>,
    pub created_at: i64,
}

/// The record that a create stores: unpaid, stamped, owned by the creator.
pub open spec fn fresh_bill(creator: Seq<u8>, args: CreateArgs) -> BillView {
    BillView {
        creator,
        name: args.name,
        total_amount: args.total_amount,
        participant_name: args.participant_name,
        created_at: args.created_at,
        is_paid: false,
    }
}

/// The error of a create, if it has one, given the address derived for the
/// creator and the name. The first that applies: the creator has not signed;
/// the slot is not at the derived address; a bill is stored there already;
/// the record cannot be laid out.
pub open spec fn create_error(
    bill: BillAccountView,
    creator: WalletView,
    derived: Option<Seq<u8>>,
    args: CreateArgs,
) -> Option<BillError> {
    if !creator.is_signer {
        Some(BillError::MissingSigner)
    } else if derived != Some(bill.address) {
        Some(BillError::CorruptRecord)
    } else if bill.record.is_some() {
        Some(BillError::AccountAlreadyExists)
    } else if !layout_fits(args.name, args.participant_name) {
        Some(BillError::CorruptRecord)
    } else {
        None
    }
}

/// The slot after a create: the fresh record in exactly the space that its
/// two texts call for, the value held against it untouched.
pub open spec fn created_slot(bill: BillAccountView, creator: WalletView, args: CreateArgs) -> BillAccountView {
    BillAccountView {
        address: bill.address,
        lamports: bill.lamports,
        space: spec_space(encode_utf8(args.name).len(), encode_utf8(args.participant_name).len()) as usize,
        record: Some(fresh_bill(creator.key, args)),
    }
}

/// The error of a payment, if it has one. The first that applies: no bill is
/// stored; the payer has not signed; the bill is paid; the payer holds less
/// than the amount; the bill's balance cannot take the amount.
pub open spec fn pay_error(bill: BillAccountView, payer: WalletView) -> Option<BillError> {
    match bill.record {
        None => Some(BillError::AccountNotFound),
        Some(record) => if !payer.is_signer {
            Some(BillError::MissingSigner)
        } else if record.is_paid {
            Some(BillError::AlreadyPaid)
        } else if payer.lamports < record.total_amount {
            Some(BillError::InsufficientFunds)
        } else if bill.lamports + record.total_amount > u64::MAX {
            Some(BillError::BalanceOverflow)
        } else {
            None
        },
    }
}

/// The bill after a payment: the amount added to its balance, the flag set.
pub open spec fn paid_slot(bill: BillAccountView) -> BillAccountView
    recommends
        bill.record.is_some(),
{
    let record = bill.record.unwrap();
    BillAccountView {
        address: bill.address,
        lamports: (bill.lamports + record.total_amount) as u64,
        space: bill.space,
        record: Some(BillView { is_paid: true, ..record }),
    }
}

/// The payer after a payment: the amount taken from the balance.
pub open spec fn charged_wallet(payer: WalletView, amount: u64) -> WalletView {
    WalletView { lamports: (payer.lamports - amount) as u64, ..payer }
}

/// The error of a deletion, if it has one. The first that applies: no bill is
/// stored; the party has not signed; the party is not the bill's creator;
/// the party's balance cannot take the bill's.
pub open spec fn delete_error(bill: BillAccountView, creator: WalletView) -> Option<BillError> {
    match bill.record {
        None => Some(BillError::AccountNotFound),
        Some(record) => if !creator.is_signer {
            Some(BillError::MissingSigner)
        } else if record.creator != creator.key {
            Some(BillError::UnauthorizedDeletion)
        } else if creator.lamports + bill.lamports > u64::MAX {
            Some(BillError::BalanceOverflow)
        } else {
            None
        },
    }
}

/// The creator after a deletion: the bill's whole balance added.
pub open spec fn refunded_wallet(creator: WalletView, amount: u64) -> WalletView {
    WalletView { lamports: (creator.lamports + amount) as u64, ..creator }
}

/// Fills the slot with a fresh bill, given the address that was derived for
/// the creator and the name. `participants` and `shares` are taken and not
/// used. On an error nothing changes.
pub fn initialize_bill(
    ctx: &mut CreateBill,
    derived: Option<Identity>,
    name: String,
    total_amount: u64,
    participants: Vec<Identity>,
    shares: Vec<u64>,
    participant_name: String,
    created_at: i64,
) -> (outcome: Result<(), BillError>)
    ensures
        ({
            let args = CreateArgs { name: name@, total_amount, participant_name: participant_name@, created_at };
            let derived_view = match derived {
                Some(address) => Some(address@),
                None => None,
            };
            match create_error(old(ctx).bill@, old(ctx).creator@, derived_view, args) {
                Some(error) => outcome == Err::<(), BillError>(error) && *final(ctx) == *old(ctx),
                None => {
                    &&& outcome.is_ok()
                    &&& final(ctx).bill@ == created_slot(old(ctx).bill@, old(ctx).creator@, args)
                    &&& final(ctx).creator == old(ctx).creator
                },
            }
        }),
{
    if !ctx.creator.is_signer {
        return Err(BillError::MissingSigner);
    }
    match derived {
        Some(address) => {
            if !address.same(&ctx.bill.address) {
                return Err(BillError::CorruptRecord);
            }
        },
        None => {
            return Err(BillError::CorruptRecord);
        },
    }
    if ctx.bill.record.is_some() {
        return Err(BillError::AccountAlreadyExists);
    }
    let space: usize = match Bill::checked_space(name.as_str(), participant_name.as_str()) {
        Some(size) => size,
        None => {
            return Err(BillError::CorruptRecord);
        },
    };
    ctx.bill.space = space;
    ctx.bill.record = Some(
        Bill {
            creator: ctx.creator.key,
            name,
            total_amount,
            participant_name,
            created_at,
            is_paid: false,
        },
    );
    Ok(())
}

/// Creates the bill that the creator calls `name`: derives its address and
/// fills the slot at that address. `created_at` is the host's clock at the
/// time of the call.
pub fn create_bill(
    ctx: &mut CreateBill,
    name: String,
    total_amount: u64,
    participants: Vec<Identity>,
    shares: Vec<u64>,
    participant_name: String,
    created_at: i64,
) -> (outcome: Result<(), BillError>)
    ensures
        ({
            let args = CreateArgs { name: name@, total_amount, participant_name: participant_name@, created_at };
            let derived = address_of(spec_derive_address(old(ctx).creator.key@, name@));
            match create_error(old(ctx).bill@, old(ctx).creator@, derived, args) {
                Some(error) => outcome == Err::<(), BillError>(error) && *final(ctx) == *old(ctx),
                None => {
                    &&& outcome.is_ok()
                    &&& final(ctx).bill@ == created_slot(old(ctx).bill@, old(ctx).creator@, args)
                    &&& final(ctx).creator == old(ctx).creator
                },
            }
        }),
{
    let derived = match derive_address(&ctx.creator.key, name.as_str()) {
        Some((address, _bump)) => Some(address),
        None => None,
    };
    initialize_bill(ctx, derived, name, total_amount, participants, shares, participant_name, created_at)
}

/// Settles the bill: moves exactly the amount owed from the payer to the
/// bill and marks it paid. On an error nothing changes.
pub fn pay_bill(ctx: &mut PayBill) -> (outcome: Result<(), BillError>)
    ensures
        match pay_error(old(ctx).bill@, old(ctx).payer@) {
            Some(error) => outcome == Err::<(), BillError>(error) && *final(ctx) == *old(ctx),
            None => {
                &&& outcome.is_ok()
                &&& final(ctx).bill@ == paid_slot(old(ctx).bill@)
                &&& final(ctx).payer@ == charged_wallet(
                    old(ctx).payer@,
                    old(ctx).bill@.record.unwrap().total_amount,
                )
            },
        },
{
    let payer_signed = ctx.payer.is_signer;
    let payer_balance: u64 = ctx.payer.lamports;
    let bill_balance: u64 = ctx.bill.lamports;
    match &mut ctx.bill.record {
        None => Err(BillError::AccountNotFound),
        Some(record) => {
            if !payer_signed {
                return Err(BillError::MissingSigner);
            }
            if record.is_paid {
                return Err(BillError::AlreadyPaid);
            }
            let amount: u64 = record.total_amount;
            if payer_balance < amount {
                return Err(BillError::InsufficientFunds);
            }
            if bill_balance > u64::MAX - amount {
                return Err(BillError::BalanceOverflow);
            }
            record.is_paid = true;
            ctx.payer.lamports = payer_balance - amount;
            ctx.bill.lamports = bill_balance + amount;
            Ok(())
        },
    }
}

/// Closes the bill: credits its whole balance to the creator and frees the
/// slot, so that the same name can be used again. On an error nothing
/// changes.
pub fn delete_bill(ctx: &mut DeleteBill) -> (outcome: Result<(), BillError>)
    ensures
        match delete_error(old(ctx).bill@, old(ctx).creator@) {
            Some(error) => outcome == Err::<(), BillError>(error) && *final(ctx) == *old(ctx),
            None => {
                &&& outcome.is_ok()
                &&& final(ctx).bill@ == vacant_slot(old(ctx).bill@.address)
                &&& final(ctx).creator@ == refunded_wallet(old(ctx).creator@, old(ctx).bill@.lamports)
            },
        },
{
    let authorized = match &ctx.bill.record {
        None => {
            return Err(BillError::AccountNotFound);
        },
        Some(record) => record.creator.same(&ctx.creator.key),
    };
    if !ctx.creator.is_signer {
        return Err(BillError::MissingSigner);
    }
    if !authorized {
        return Err(BillError::UnauthorizedDeletion);
    }
    let bill_balance: u64 = ctx.bill.lamports;
    if ctx.creator.lamports > u64::MAX - bill_balance {
        return Err(BillError::BalanceOverflow);
    }
    ctx.bill.lamports = 0;
    ctx.creator.lamports = ctx.creator.lamports + bill_balance;
    ctx.bill.space = 0;
    ctx.bill.record = None;
    Ok(())
}

/// The address part of a derived address and bump seed.
pub open spec fn address_of(derived: Option<(Seq<u8>, u8)>) -> Option<Seq<u8>> {
    match derived {
        Some((address, bump)) => Some(address),
        None => None,
    }
}

/// A bill is paid exactly once. Of two signed payers who each hold the
/// amount, whichever pays an unpaid bill first succeeds, and the other is
/// then refused because the bill is paid. After the first payment the bill
/// is marked paid and holds the amount on top of what it held before: the
/// amount itself where it held nothing.
pub proof fn payment_happens_once(bill: BillAccountView, first: WalletView, second: WalletView)
    requires
        bill.record.is_some(),
        !bill.record.unwrap().is_paid,
        first.is_signer,
        second.is_signer,
        first.lamports >= bill.record.unwrap().total_amount,
        second.lamports >= bill.record.unwrap().total_amount,
        bill.lamports + bill.record.unwrap().total_amount <= u64::MAX,
    ensures
        pay_error(bill, first).is_none(),
        pay_error(bill, second).is_none(),
        pay_error(paid_slot(bill), second) == Some(BillError::AlreadyPaid),
        pay_error(paid_slot(bill), first) == Some(BillError::AlreadyPaid),
        paid_slot(bill).record.unwrap().is_paid,
        paid_slot(bill).lamports == bill.lamports + bill.record.unwrap().total_amount,
        bill.lamports == 0 ==> paid_slot(bill).lamports == bill.record.unwrap().total_amount,
{
}

/// Once paid, always paid: every further payment is refused, and a refused
/// payment changes nothing.
pub proof fn paid_flag_is_monotonic(bill: BillAccountView, payer: WalletView)
    requires
        bill.record.is_some(),
        bill.record.unwrap().is_paid,
    ensures
        pay_error(bill, payer).is_some(),
{
}

/// A signed payment of a paid bill is refused as already paid, whatever the
/// payer holds.
pub proof fn paid_bill_rejects_payment(bill: BillAccountView, payer: WalletView)
    requires
        bill.record.is_some(),
        bill.record.unwrap().is_paid,
        payer.is_signer,
    ensures
        pay_error(bill, payer) == Some(BillError::AlreadyPaid),
{
}

/// A signed payment of an unpaid bill by a payer who holds less than the
/// amount is refused for insufficient funds.
pub proof fn short_payer_is_rejected(bill: BillAccountView, payer: WalletView)
    requires
        bill.record.is_some(),
        !bill.record.unwrap().is_paid,
        payer.is_signer,
        payer.lamports < bill.record.unwrap().total_amount,
    ensures
        pay_error(bill, payer) == Some(BillError::InsufficientFunds),
{
}

/// A signed deletion by anyone but the bill's creator is refused as
/// unauthorized.
pub proof fn only_creator_deletes(bill: BillAccountView, party: WalletView)
    requires
        bill.record.is_some(),
        party.is_signer,
        party.key != bill.record.unwrap().creator,
    ensures
        delete_error(bill, party) == Some(BillError::UnauthorizedDeletion),
{
}

/// Deletion reclaims everything and frees the name. A signed deletion by the
/// creator, whose balance can take the bill's, succeeds; the creator then
/// holds exactly the bill's balance more and the slot is empty. A create by
/// the same creator under a name whose derived address is the slot's, with
/// texts that can be laid out, then succeeds and stores an unpaid bill.
pub proof fn deletion_reclaims_and_frees(bill: BillAccountView, creator: WalletView, args: CreateArgs)
    requires
        bill.record.is_some(),
        creator.is_signer,
        creator.key == bill.record.unwrap().creator,
        creator.lamports + bill.lamports <= u64::MAX,
        address_of(spec_derive_address(creator.key, args.name)) == Some(bill.address),
        layout_fits(args.name, args.participant_name),
    ensures
        delete_error(bill, creator).is_none(),
        refunded_wallet(creator, bill.lamports).lamports == creator.lamports + bill.lamports,
        vacant_slot(bill.address).record.is_none(),
        vacant_slot(bill.address).lamports == 0,
        create_error(
            vacant_slot(bill.address),
            refunded_wallet(creator, bill.lamports),
            address_of(spec_derive_address(creator.key, args.name)),
            args,
        ).is_none(),
        created_slot(
            vacant_slot(bill.address),
            refunded_wallet(creator, bill.lamports),
            args,
        ).record == Some(fresh_bill(creator.key, args)),
        !fresh_bill(creator.key, args).is_paid,
{
}

/// A name is taken once: after an accepted create, every signed create at
/// the same slot is refused because a bill is stored there.
pub proof fn second_create_is_refused(
    bill: BillAccountView,
    creator: WalletView,
    derived: Option<Seq<u8>>,
    args: CreateArgs,
    other: WalletView,
    again: CreateArgs,
)
    requires
        create_error(bill, creator, derived, args).is_none(),
        other.is_signer,
    ensures
        create_error(created_slot(bill, creator, args), other, derived, again) == Some(
            BillError::AccountAlreadyExists,
        ),
{
}

/// Every operation keeps a consistent slot consistent: an accepted create
/// fills it with an unpaid bill in exactly its space and holds nothing; an
/// accepted payment leaves it paid and holding exactly the amount owed, and
/// is never refused for want of room in the balance; a deletion leaves it
/// empty.
pub proof fn operations_keep_slots_consistent(
    bill: BillAccountView,
    party: WalletView,
    derived: Option<Seq<u8>>,
    args: CreateArgs,
)
    requires
        slot_consistent(bill),
    ensures
        create_error(bill, party, derived, args).is_none() ==> slot_consistent(
            created_slot(bill, party, args),
        ) && created_slot(bill, party, args).lamports == 0,
        pay_error(bill, party) != Some(BillError::BalanceOverflow),
        pay_error(bill, party).is_none() ==> slot_consistent(paid_slot(bill)) && paid_slot(
            bill,
        ).lamports == bill.record.unwrap().total_amount,
        slot_consistent(vacant_slot(bill.address)),
{
}

} // verus!
