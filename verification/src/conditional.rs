//! The escrow lifecycle controller and the registry query service.
//!
//! Every operation is atomic: it validates first and mutates only once
//! success is certain, so a rejected request leaves the ledger, the
//! registries and the escrow record exactly as they were.
//!
//! A live escrow is carried in an `Option<Escrow>` slot: creation
//! produces the record, release and refund consume it (the slot becomes
//! `None`), matching the closing of the escrow's storage.  A refund
//! takes no payment registry at all, so it can never append to it.

use vstd::prelude::*;
use crate::errors::RouterError;
use crate::escrow::Escrow;
use crate::escrow::EscrowData;
use crate::escrow::EscrowDataView;
use crate::escrow::EscrowView;
use crate::escrow::snapshot_of;
use crate::ledger::AuthorityKey;
use crate::ledger::Ledger;
use crate::ledger::TokenAccount;
use crate::registry::EscrowList;
use crate::registry::LIST_CAPACITY;
use crate::registry::Payment;
use crate::registry::PaymentList;

verus! {

/// Accounts taking part in escrow creation: the depositor (`sender`),
/// the recipient, the asset, the depositor's funding account, and the
/// derivation nonce under which the escrow's authority was derived.
#[derive(Clone, Copy, Debug, PartialEq, Eq, Structural)]
pub struct CreateEscrow {
    pub sender: u64,
    pub recipient: u64,
    pub mint: u64,
    pub sender_token_account: usize,
    pub bump: u8,
}

/// The attesting caller of a fulfillment.
#[derive(Clone, Copy, Debug, PartialEq, Eq, Structural)]
pub struct FulfillCondition {
    pub recipient: u64,
}

/// Accounts taking part in a release: the escrow's holding account and
/// the recipient account to credit.
#[derive(Clone, Copy, Debug, PartialEq, Eq, Structural)]
pub struct ReleasePayment {
    pub escrow_token_account: usize,
    pub recipient_token_account: usize,
}

/// Accounts taking part in a refund: the claiming depositor, the
/// escrow's holding account and the depositor account to credit.
#[derive(Clone, Copy, Debug, PartialEq, Eq, Structural)]
pub struct Refund {
    pub sender: u64,
    pub escrow_token_account: usize,
    pub sender_token_account: usize,
}

/// Notification content of `list_conditional_escrows`.
pub struct EscrowsListed {
    pub escrows: Vec<EscrowData>,
}

/// Notification content of `list_released_payments`.
pub struct PaymentsListed {
    pub payments: Vec<Payment>,
}

/// The transfer authority derived from an escrow's triple; only the
/// controller constructs it, so only the controller can move funds out
/// of a holding account.
pub open spec fn derived_authority(sender: u64, recipient: u64, mint: u64) -> AuthorityKey {
    AuthorityKey::Derived { sender, recipient, mint }
}

/// Which error creation is rejected with, or `None` when it goes
/// through.  Checks are made in this order.
pub open spec fn create_check(
    list: Seq<EscrowDataView>,
    ledger: Seq<TokenAccount>,
    a: CreateEscrow,
    amount: u64,
) -> Option<RouterError> {
    let sta = a.sender_token_account as int;
    if list.len() >= LIST_CAPACITY {
        Some(RouterError::RegistryFull)
    } else if sta >= ledger.len() {
        Some(RouterError::MissingOrMismatchedAccount)
    } else if ledger[sta].owner != AuthorityKey::User(a.sender) {
        Some(RouterError::BadAuthority)
    } else if ledger[sta].mint != a.mint {
        Some(RouterError::MissingOrMismatchedAccount)
    } else if ledger[sta].balance < amount {
        Some(RouterError::InsufficientFunds)
    } else {
        None
    }
}

/// The escrow record a successful creation initializes.
pub open spec fn created_escrow(
    a: CreateEscrow,
    amount: u64,
    condition: Seq<char>,
    expiry_time: i64,
) -> EscrowView {
    EscrowView {
        sender: a.sender,
        recipient: a.recipient,
        mint: a.mint,
        amount,
        condition,
        is_fulfilled: false,
        expiry_time,
        bump: a.bump,
    }
}

/// The ledger after a successful creation: the funding account debited
/// by `amount`, and a fresh holding account under the escrow's derived
/// authority credited with exactly `amount`.
pub open spec fn create_ledger_update(
    s: Seq<TokenAccount>,
    a: CreateEscrow,
    amount: u64,
) -> Seq<TokenAccount> {
    let sta = a.sender_token_account as int;
    s.update(sta, TokenAccount { balance: (s[sta].balance - amount) as u64, ..s[sta] }).push(
        TokenAccount {
            owner: derived_authority(a.sender, a.recipient, a.mint),
            mint: a.mint,
            balance: amount,
        },
    )
}

/// Creates an escrow: initializes the record, appends its snapshot to
/// the escrow registry and funds the holding account from the
/// depositor's account, all or nothing.  On any rejection the ledger
/// and the registry are untouched and no record exists.
pub fn create_escrow(
    ledger: &mut Ledger,
    escrow_list: &mut EscrowList,
    accounts: &CreateEscrow,
    amount: u64,
    condition: String,
    expiry_time: i64,
) -> (r: Result<(Escrow, usize), RouterError>)
    ensures
        final(escrow_list).bump == old(escrow_list).bump,
        (match create_check(old(escrow_list)@, old(ledger)@, *accounts, amount) {
            Some(e) => r == Err::<(Escrow, usize), RouterError>(e)
                && final(ledger)@ == old(ledger)@
                && final(escrow_list)@ == old(escrow_list)@,
            None => r is Ok
                && (r->Ok_0).0@ == created_escrow(*accounts, amount, condition@, expiry_time)
                && (r->Ok_0).1 == old(ledger)@.len()
                && final(ledger)@ == create_ledger_update(old(ledger)@, *accounts, amount)
                && final(escrow_list)@ == old(escrow_list)@.push(
                    snapshot_of(created_escrow(*accounts, amount, condition@, expiry_time)),
                ),
        }),
{
    if escrow_list.escrows.len() >= LIST_CAPACITY {
        return Err(RouterError::RegistryFull);
    }
    if accounts.sender_token_account >= ledger.accounts.len() {
        return Err(RouterError::MissingOrMismatchedAccount);
    }
    let source = ledger.accounts[accounts.sender_token_account];
    if source.owner != AuthorityKey::User(accounts.sender) {
        return Err(RouterError::BadAuthority);
    }
    if source.mint != accounts.mint {
        return Err(RouterError::MissingOrMismatchedAccount);
    }
    if source.balance < amount {
        return Err(RouterError::InsufficientFunds);
    }
    let authority = AuthorityKey::Derived {
        sender: accounts.sender,
        recipient: accounts.recipient,
        mint: accounts.mint,
    };
    let holding = ledger.open_account(authority, accounts.mint, 0);
    let transferred = ledger.transfer(
        accounts.sender_token_account,
        holding,
        AuthorityKey::User(accounts.sender),
        amount,
    );
    match transferred {
        Ok(()) => {},
        Err(e) => {
            proof {
                assert(false);
            }
            return Err(e);
        },
    }
    proof {
        assert(ledger@ =~= create_ledger_update(old(ledger)@, *accounts, amount));
    }
    let escrow = Escrow {
        sender: accounts.sender,
        recipient: accounts.recipient,
        mint: accounts.mint,
        amount,
        condition,
        is_fulfilled: false,
        expiry_time,
        bump: accounts.bump,
    };
    let data = escrow.snapshot();
    let pushed = escrow_list.push_escrow(data);
    match pushed {
        Ok(()) => {},
        Err(e) => {
            proof {
                assert(false);
            }
            return Err(e);
        },
    }
    Ok((escrow, holding))
}

/// Which error fulfillment is rejected with, or `None` when it goes
/// through: the attester must be the escrow's recipient, the condition
/// not yet attested, and the expiry time not yet passed.
pub open spec fn fulfill_check(e: EscrowView, attester: u64, now: i64) -> Option<RouterError> {
    if attester != e.recipient {
        Some(RouterError::BadAuthority)
    } else if e.is_fulfilled {
        Some(RouterError::AlreadyFulfilled)
    } else if now > e.expiry_time {
        Some(RouterError::Expired)
    } else {
        None
    }
}

/// The escrow with its condition attested; every other field is kept.
pub open spec fn fulfilled_escrow(e: EscrowView) -> EscrowView {
    EscrowView { is_fulfilled: true, ..e }
}

/// The escrow after a fulfillment attempt by `attester` at time `now`.
pub open spec fn fulfill_next(e: EscrowView, attester: u64, now: i64) -> EscrowView {
    if fulfill_check(e, attester, now) is None {
        fulfilled_escrow(e)
    } else {
        e
    }
}

/// Marks the escrow's condition fulfilled.  No funds move; a rejected
/// attempt leaves the record unchanged.
pub fn fulfill_condition(escrow: &mut Escrow, accounts: &FulfillCondition, now: i64) -> (r: Result<
    (),
    RouterError,
>)
    ensures
        final(escrow)@ == fulfill_next(old(escrow)@, accounts.recipient, now),
        (match fulfill_check(old(escrow)@, accounts.recipient, now) {
            None => r == Ok::<(), RouterError>(()),
            Some(e) => r == Err::<(), RouterError>(e),
        }),
{
    if accounts.recipient != escrow.recipient {
        return Err(RouterError::BadAuthority);
    }
    if escrow.is_fulfilled {
        return Err(RouterError::AlreadyFulfilled);
    }
    if now > escrow.expiry_time {
        return Err(RouterError::Expired);
    }
    escrow.is_fulfilled = true;
    Ok(())
}

/// Which error a release is rejected with, or `None` when it goes
/// through.  Lifecycle gates come first, then the consistency of the
/// presented accounts with the escrow, then registry capacity, then
/// funds.
pub open spec fn release_check(
    e: EscrowView,
    ledger: Seq<TokenAccount>,
    payments_len: int,
    a: ReleasePayment,
    now: i64,
) -> Option<RouterError> {
    let eta = a.escrow_token_account as int;
    let rta = a.recipient_token_account as int;
    if !e.is_fulfilled {
        Some(RouterError::ConditionNotFulfilled)
    } else if now > e.expiry_time {
        Some(RouterError::Expired)
    } else if eta >= ledger.len() || rta >= ledger.len() || eta == rta {
        Some(RouterError::MissingOrMismatchedAccount)
    } else if ledger[eta].owner != derived_authority(e.sender, e.recipient, e.mint) {
        Some(RouterError::MissingOrMismatchedAccount)
    } else if ledger[eta].mint != e.mint || ledger[rta].mint != e.mint {
        Some(RouterError::MissingOrMismatchedAccount)
    } else if payments_len >= LIST_CAPACITY {
        Some(RouterError::RegistryFull)
    } else if ledger[eta].balance < e.amount {
        Some(RouterError::InsufficientFunds)
    } else {
        None
    }
}

/// Releases a fulfilled, unexpired escrow: moves its amount from the
/// holding account to the recipient account under the escrow's derived
/// authority, appends exactly one release record, and closes the
/// escrow.  A rejected attempt changes nothing.
pub fn release_payment(
    ledger: &mut Ledger,
    payment_list: &mut PaymentList,
    escrow_slot: &mut Option<Escrow>,
    accounts: &ReleasePayment,
    now: i64,
) -> (r: Result<(), RouterError>)
    requires
        (*old(escrow_slot)) is Some,
        accounts.recipient_token_account != accounts.escrow_token_account
            && accounts.recipient_token_account < old(ledger)@.len()
            ==> old(ledger)@[accounts.recipient_token_account as int].balance
                + (*old(escrow_slot))->Some_0@.amount <= u64::MAX,
    ensures
        final(payment_list).bump == old(payment_list).bump,
        (match release_check(
            (*old(escrow_slot))->Some_0@,
            old(ledger)@,
            old(payment_list)@.len() as int,
            *accounts,
            now,
        ) {
            Some(e) => r == Err::<(), RouterError>(e)
                && final(ledger)@ == old(ledger)@
                && final(payment_list)@ == old(payment_list)@
                && *final(escrow_slot) == *old(escrow_slot),
            None => r == Ok::<(), RouterError>(())
                && (*final(escrow_slot)) is None
                && final(ledger)@ == Ledger::transfer_update(
                    old(ledger)@,
                    accounts.escrow_token_account as int,
                    accounts.recipient_token_account as int,
                    (*old(escrow_slot))->Some_0@.amount,
                )
                && final(payment_list)@ == old(payment_list)@.push(
                    (Payment {
                        amount: (*old(escrow_slot))->Some_0@.amount,
                        recipient: accounts.recipient_token_account as u64,
                        timestamp: now,
                    }),
                )
                && final(payment_list)@.len() == old(payment_list)@.len() + 1,
        }),
{
    let escrow = escrow_slot.as_ref().unwrap();
    let sender = escrow.sender;
    let recipient = escrow.recipient;
    let mint = escrow.mint;
    let amount = escrow.amount;
    let is_fulfilled = escrow.is_fulfilled;
    let expiry_time = escrow.expiry_time;
    if !is_fulfilled {
        return Err(RouterError::ConditionNotFulfilled);
    }
    if now > expiry_time {
        return Err(RouterError::Expired);
    }
    let eta = accounts.escrow_token_account;
    let rta = accounts.recipient_token_account;
    if eta >= ledger.accounts.len() || rta >= ledger.accounts.len() || eta == rta {
        return Err(RouterError::MissingOrMismatchedAccount);
    }
    let holding = ledger.accounts[eta];
    let authority = AuthorityKey::Derived { sender, recipient, mint };
    if holding.owner != authority {
        return Err(RouterError::MissingOrMismatchedAccount);
    }
    if holding.mint != mint || ledger.accounts[rta].mint != mint {
        return Err(RouterError::MissingOrMismatchedAccount);
    }
    if payment_list.payments.len() >= LIST_CAPACITY {
        return Err(RouterError::RegistryFull);
    }
    if holding.balance < amount {
        return Err(RouterError::InsufficientFunds);
    }
    let transferred = ledger.transfer(eta, rta, authority, amount);
    match transferred {
        Ok(()) => {},
        Err(e) => {
            proof {
                assert(false);
            }
            return Err(e);
        },
    }
    let pushed = payment_list.push_payment(
        Payment { amount, recipient: rta as u64, timestamp: now },
    );
    match pushed {
        Ok(()) => {},
        Err(e) => {
            proof {
                assert(false);
            }
            return Err(e);
        },
    }
    *escrow_slot = None;
    Ok(())
}

/// Which error a refund is rejected with, or `None` when it goes
/// through.  The caller must be the depositor, the condition must not
/// be attested, and the expiry time must have passed.
pub open spec fn refund_check(
    e: EscrowView,
    ledger: Seq<TokenAccount>,
    a: Refund,
    now: i64,
) -> Option<RouterError> {
    let eta = a.escrow_token_account as int;
    let sta = a.sender_token_account as int;
    if a.sender != e.sender {
        Some(RouterError::BadAuthority)
    } else if e.is_fulfilled {
        Some(RouterError::AlreadyFulfilled)
    } else if now <= e.expiry_time {
        Some(RouterError::NotExpired)
    } else if eta >= ledger.len() || sta >= ledger.len() || eta == sta {
        Some(RouterError::MissingOrMismatchedAccount)
    } else if ledger[eta].owner != derived_authority(e.sender, e.recipient, e.mint) {
        Some(RouterError::MissingOrMismatchedAccount)
    } else if ledger[sta].owner != AuthorityKey::User(e.sender) {
        Some(RouterError::MissingOrMismatchedAccount)
    } else if ledger[eta].mint != e.mint || ledger[sta].mint != e.mint {
        Some(RouterError::MissingOrMismatchedAccount)
    } else if ledger[eta].balance < e.amount {
        Some(RouterError::InsufficientFunds)
    } else {
        None
    }
}

/// Refunds an unfulfilled escrow after its expiry: moves its amount
/// from the holding account back to the depositor's account and closes
/// the escrow.  It takes no payment registry, so no release record can
/// come out of a refund.  A rejected attempt changes nothing.
pub fn refund(
    ledger: &mut Ledger,
    escrow_slot: &mut Option<Escrow>,
    accounts: &Refund,
    now: i64,
) -> (r: Result<(), RouterError>)
    requires
        (*old(escrow_slot)) is Some,
        accounts.sender_token_account != accounts.escrow_token_account
            && accounts.sender_token_account < old(ledger)@.len()
            ==> old(ledger)@[accounts.sender_token_account as int].balance
                + (*old(escrow_slot))->Some_0@.amount <= u64::MAX,
    ensures
        (match refund_check((*old(escrow_slot))->Some_0@, old(ledger)@, *accounts, now) {
            Some(e) => r == Err::<(), RouterError>(e)
                && final(ledger)@ == old(ledger)@
                && *final(escrow_slot) == *old(escrow_slot),
            None => r == Ok::<(), RouterError>(())
                && (*final(escrow_slot)) is None
                && final(ledger)@ == Ledger::transfer_update(
                    old(ledger)@,
                    accounts.escrow_token_account as int,
                    accounts.sender_token_account as int,
                    (*old(escrow_slot))->Some_0@.amount,
                ),
        }),
{
    let escrow = escrow_slot.as_ref().unwrap();
    let sender = escrow.sender;
    let recipient = escrow.recipient;
    let mint = escrow.mint;
    let amount = escrow.amount;
    let is_fulfilled = escrow.is_fulfilled;
    let expiry_time = escrow.expiry_time;
    if accounts.sender != sender {
        return Err(RouterError::BadAuthority);
    }
    if is_fulfilled {
        return Err(RouterError::AlreadyFulfilled);
    }
    if now <= expiry_time {
        return Err(RouterError::NotExpired);
    }
    let eta = accounts.escrow_token_account;
    let sta = accounts.sender_token_account;
    if eta >= ledger.accounts.len() || sta >= ledger.accounts.len() || eta == sta {
        return Err(RouterError::MissingOrMismatchedAccount);
    }
    let holding = ledger.accounts[eta];
    let authority = AuthorityKey::Derived { sender, recipient, mint };
    if holding.owner != authority {
        return Err(RouterError::MissingOrMismatchedAccount);
    }
    let destination = ledger.accounts[sta];
    if destination.owner != AuthorityKey::User(sender) {
        return Err(RouterError::MissingOrMismatchedAccount);
    }
    if holding.mint != mint || destination.mint != mint {
        return Err(RouterError::MissingOrMismatchedAccount);
    }
    if holding.balance < amount {
        return Err(RouterError::InsufficientFunds);
    }
    let transferred = ledger.transfer(eta, sta, authority, amount);
    match transferred {
        Ok(()) => {},
        Err(e) => {
            proof {
                assert(false);
            }
            return Err(e);
        },
    }
    *escrow_slot = None;
    Ok(())
}

/// The subsequence of registry snapshots whose condition was not yet
/// attested at creation time, in insertion order.
pub open spec fn active_escrows(s: Seq<EscrowDataView>) -> Seq<EscrowDataView> {
    s.filter(|d: EscrowDataView| !d.is_fulfilled)
}

/// Lists the registry snapshots taken at creation with an unfulfilled
/// condition, preserving insertion order.  A pure read: the registry is
/// a historical log, so the listing reflects status at creation time.
pub fn list_conditional_escrows(escrow_list: &EscrowList) -> (r: EscrowsListed)
    ensures
        r.escrows@.map_values(|d: EscrowData| d@) == active_escrows(escrow_list@),
        forall|i: int|
            0 <= i < r.escrows@.len() ==> !(#[trigger] r.escrows@[i])@.is_fulfilled,
{
    let mut out: Vec<EscrowData> = Vec::new();
    let n = escrow_list.escrows.len();
    let mut i: usize = 0;
    while i < n
        invariant
            n == escrow_list.escrows@.len(),
            i <= n,
            out@.map_values(|d: EscrowData| d@) == active_escrows(
                escrow_list@.subrange(0, i as int),
            ),
            forall|j: int| 0 <= j < out@.len() ==> !(#[trigger] out@[j])@.is_fulfilled,
        decreases n - i,
    {
        proof {
            assert(escrow_list@.subrange(0, i + 1) =~= escrow_list@.subrange(0, i as int).push(
                escrow_list@[i as int],
            ));
            lemma_filter_push(
                escrow_list@.subrange(0, i as int),
                |d: EscrowDataView| !d.is_fulfilled,
                escrow_list@[i as int],
            );
        }
        if !escrow_list.escrows[i].is_fulfilled {
            let ghost pre = out@;
            out.push(escrow_list.escrows[i].duplicate());
            proof {
                assert(out@.map_values(|d: EscrowData| d@) =~= pre.map_values(
                    |d: EscrowData| d@,
                ).push(escrow_list@[i as int]));
            }
        }
        i += 1;
    }
    proof {
        assert(escrow_list@.subrange(0, n as int) =~= escrow_list@);
    }
    EscrowsListed { escrows: out }
}

/// Lists every release record in insertion order.  A pure read.
pub fn list_released_payments(payment_list: &PaymentList) -> (r: PaymentsListed)
    ensures
        r.payments@ == payment_list@,
{
    let mut out: Vec<Payment> = Vec::new();
    let n = payment_list.payments.len();
    let mut i: usize = 0;
    while i < n
        invariant
            n == payment_list.payments@.len(),
            i <= n,
            out@ == payment_list@.subrange(0, i as int),
        decreases n - i,
    {
        out.push(payment_list.payments[i]);
        proof {
            assert(out@ =~= payment_list@.subrange(0, i + 1));
        }
        i += 1;
    }
    proof {
        assert(payment_list@.subrange(0, n as int) =~= payment_list@);
    }
    PaymentsListed { payments: out }
}

/// One-time creation of the singleton escrow registry; invoking it
/// against an already-initialized slot fails and changes nothing.
pub fn initialize_escrow_list(slot: &mut Option<EscrowList>, bump: u8) -> (r: Result<
    (),
    RouterError,
>)
    ensures
        (*old(slot)) is None ==> r == Ok::<(), RouterError>(()) && (*final(slot)) is Some && (
        *final(slot))->Some_0@ == Seq::<EscrowDataView>::empty() && (*final(slot))->Some_0.bump
            == bump,
        (*old(slot)) is Some ==> r == Err::<(), RouterError>(RouterError::AlreadyInitialized)
            && *final(slot) == *old(slot),
{
    if slot.is_some() {
        return Err(RouterError::AlreadyInitialized);
    }
    *slot = Some(EscrowList::new(bump));
    Ok(())
}

/// One-time creation of the singleton payment registry; invoking it
/// against an already-initialized slot fails and changes nothing.
pub fn initialize_payment_list(slot: &mut Option<PaymentList>, bump: u8) -> (r: Result<
    (),
    RouterError,
>)
    ensures
        (*old(slot)) is None ==> r == Ok::<(), RouterError>(()) && (*final(slot)) is Some && (
        *final(slot))->Some_0@ == Seq::<Payment>::empty() && (*final(slot))->Some_0.bump == bump,
        (*old(slot)) is Some ==> r == Err::<(), RouterError>(RouterError::AlreadyInitialized)
            && *final(slot) == *old(slot),
{
    if slot.is_some() {
        return Err(RouterError::AlreadyInitialized);
    }
    *slot = Some(PaymentList::new(bump));
    Ok(())
}

/// Filtering a sequence extended by one element keeps the old filtered
/// prefix and appends the element exactly when it satisfies the
/// predicate.
pub proof fn lemma_filter_push<A>(s: Seq<A>, pred: spec_fn(A) -> bool, x: A)
    ensures
        s.push(x).filter(pred) == if pred(x) {
            s.filter(pred).push(x)
        } else {
            s.filter(pred)
        },
{
    reveal(Seq::filter);
    assert(s.push(x).drop_last() =~= s);
    assert(s.push(x).last() == x);
}

} // verus!
