use conditional_escrow::conditional::create_escrow;
use conditional_escrow::conditional::fulfill_condition;
use conditional_escrow::conditional::initialize_escrow_list;
use conditional_escrow::conditional::initialize_payment_list;
use conditional_escrow::conditional::refund;
use conditional_escrow::conditional::release_payment;
use conditional_escrow::conditional::CreateEscrow;
use conditional_escrow::conditional::FulfillCondition;
use conditional_escrow::conditional::Refund;
use conditional_escrow::conditional::ReleasePayment;
use conditional_escrow::errors::RouterError;
use conditional_escrow::ledger::AuthorityKey;
use conditional_escrow::ledger::Ledger;
use conditional_escrow::registry::EscrowList;
use conditional_escrow::registry::PaymentList;

const MINT: u64 = 7;
const DEPOSITOR: u64 = 1;
const RECIPIENT: u64 = 2;

/// Depositor's account (100 units), recipient's empty account, fresh
/// registries.
fn setup() -> (Ledger, EscrowList, PaymentList, usize, usize) {
    let mut ledger = Ledger::new();
    let d = ledger.open_account(AuthorityKey::User(DEPOSITOR), MINT, 100);
    let r = ledger.open_account(AuthorityKey::User(RECIPIENT), MINT, 0);
    (ledger, EscrowList::new(0), PaymentList::new(0), d, r)
}

fn create_accounts(d: usize) -> CreateEscrow {
    CreateEscrow {
        sender: DEPOSITOR,
        recipient: RECIPIENT,
        mint: MINT,
        sender_token_account: d,
        bump: 3,
    }
}

#[test]
fn create_fulfill_release_scenario() {
    let (mut ledger, mut list, mut payments, d, r) = setup();
    let created = create_escrow(
        &mut ledger,
        &mut list,
        &create_accounts(d),
        100,
        "c1".to_string(),
        1000,
    );
    let (escrow, holding) = created.unwrap();
    assert_eq!(escrow.amount, 100);
    assert_eq!(escrow.condition, "c1".to_string());
    assert!(!escrow.is_fulfilled);
    assert_eq!(escrow.expiry_time, 1000);
    assert_eq!(ledger.balance_of(holding), 100);
    assert_eq!(ledger.balance_of(d), 0);
    assert_eq!(list.escrows.len(), 1);

    let mut slot = Some(escrow);
    let fulfilled = fulfill_condition(
        slot.as_mut().unwrap(),
        &FulfillCondition { recipient: RECIPIENT },
        500,
    );
    assert_eq!(fulfilled, Ok(()));
    assert!(slot.as_ref().unwrap().is_fulfilled);

    let released = release_payment(
        &mut ledger,
        &mut payments,
        &mut slot,
        &ReleasePayment { escrow_token_account: holding, recipient_token_account: r },
        600,
    );
    assert_eq!(released, Ok(()));
    assert_eq!(ledger.balance_of(r), 100);
    assert_eq!(ledger.balance_of(holding), 0);
    assert_eq!(payments.payments.len(), 1);
    assert_eq!(payments.payments[0].amount, 100);
    assert_eq!(payments.payments[0].recipient, r as u64);
    assert_eq!(payments.payments[0].timestamp, 600);
    assert!(slot.is_none());
}

#[test]
fn refund_after_expiry_scenario() {
    let (mut ledger, mut list, payments, d, _r) = setup();
    let (escrow, holding) = create_escrow(
        &mut ledger,
        &mut list,
        &create_accounts(d),
        100,
        "c1".to_string(),
        1000,
    )
    .unwrap();
    let mut slot = Some(escrow);
    let refunded = refund(
        &mut ledger,
        &mut slot,
        &Refund { sender: DEPOSITOR, escrow_token_account: holding, sender_token_account: d },
        1500,
    );
    assert_eq!(refunded, Ok(()));
    assert_eq!(ledger.balance_of(d), 100);
    assert_eq!(ledger.balance_of(holding), 0);
    assert!(slot.is_none());
    assert_eq!(payments.payments.len(), 0);
}

#[test]
fn fulfill_twice_fails_already_fulfilled() {
    let (mut ledger, mut list, _payments, d, _r) = setup();
    let (escrow, _holding) = create_escrow(
        &mut ledger,
        &mut list,
        &create_accounts(d),
        100,
        "c1".to_string(),
        1000,
    )
    .unwrap();
    let mut slot = Some(escrow);
    let attester = FulfillCondition { recipient: RECIPIENT };
    assert_eq!(fulfill_condition(slot.as_mut().unwrap(), &attester, 400), Ok(()));
    assert_eq!(
        fulfill_condition(slot.as_mut().unwrap(), &attester, 500),
        Err(RouterError::AlreadyFulfilled)
    );
    assert!(slot.as_ref().unwrap().is_fulfilled);
}

#[test]
fn release_before_fulfillment_fails() {
    let (mut ledger, mut list, mut payments, d, r) = setup();
    let (escrow, holding) = create_escrow(
        &mut ledger,
        &mut list,
        &create_accounts(d),
        100,
        "c1".to_string(),
        1000,
    )
    .unwrap();
    let mut slot = Some(escrow);
    let released = release_payment(
        &mut ledger,
        &mut payments,
        &mut slot,
        &ReleasePayment { escrow_token_account: holding, recipient_token_account: r },
        500,
    );
    assert_eq!(released, Err(RouterError::ConditionNotFulfilled));
    assert!(slot.is_some());
    assert_eq!(ledger.balance_of(holding), 100);
    assert_eq!(payments.payments.len(), 0);
}

#[test]
fn fulfill_after_expiry_fails_expired() {
    let (mut ledger, mut list, _payments, d, _r) = setup();
    let (escrow, _holding) = create_escrow(
        &mut ledger,
        &mut list,
        &create_accounts(d),
        100,
        "c1".to_string(),
        1000,
    )
    .unwrap();
    let mut slot = Some(escrow);
    let attester = FulfillCondition { recipient: RECIPIENT };
    assert_eq!(fulfill_condition(slot.as_mut().unwrap(), &attester, 1001), Err(RouterError::Expired));
    assert!(!slot.as_ref().unwrap().is_fulfilled);
    // at the expiry time itself the attestation still goes through
    assert_eq!(fulfill_condition(slot.as_mut().unwrap(), &attester, 1000), Ok(()));
}

#[test]
fn fulfill_by_non_recipient_fails() {
    let (mut ledger, mut list, _payments, d, _r) = setup();
    let (mut escrow, _holding) = create_escrow(
        &mut ledger,
        &mut list,
        &create_accounts(d),
        100,
        "c1".to_string(),
        1000,
    )
    .unwrap();
    let outcome = fulfill_condition(&mut escrow, &FulfillCondition { recipient: DEPOSITOR }, 500);
    assert_eq!(outcome, Err(RouterError::BadAuthority));
    assert!(!escrow.is_fulfilled);
}

#[test]
fn release_after_expiry_fails_expired() {
    let (mut ledger, mut list, mut payments, d, r) = setup();
    let (escrow, holding) = create_escrow(
        &mut ledger,
        &mut list,
        &create_accounts(d),
        100,
        "c1".to_string(),
        1000,
    )
    .unwrap();
    let mut slot = Some(escrow);
    let attester = FulfillCondition { recipient: RECIPIENT };
    assert_eq!(fulfill_condition(slot.as_mut().unwrap(), &attester, 900), Ok(()));
    let released = release_payment(
        &mut ledger,
        &mut payments,
        &mut slot,
        &ReleasePayment { escrow_token_account: holding, recipient_token_account: r },
        1200,
    );
    assert_eq!(released, Err(RouterError::Expired));
    assert!(slot.is_some());
    assert_eq!(payments.payments.len(), 0);
    // a fulfilled escrow cannot be refunded either, even past expiry
    let refunded = refund(
        &mut ledger,
        &mut slot,
        &Refund { sender: DEPOSITOR, escrow_token_account: holding, sender_token_account: d },
        1200,
    );
    assert_eq!(refunded, Err(RouterError::AlreadyFulfilled));
    assert!(slot.is_some());
}

#[test]
fn release_at_expiry_time_succeeds() {
    let (mut ledger, mut list, mut payments, d, r) = setup();
    let (escrow, holding) = create_escrow(
        &mut ledger,
        &mut list,
        &create_accounts(d),
        100,
        "c1".to_string(),
        1000,
    )
    .unwrap();
    let mut slot = Some(escrow);
    let attester = FulfillCondition { recipient: RECIPIENT };
    assert_eq!(fulfill_condition(slot.as_mut().unwrap(), &attester, 900), Ok(()));
    let released = release_payment(
        &mut ledger,
        &mut payments,
        &mut slot,
        &ReleasePayment { escrow_token_account: holding, recipient_token_account: r },
        1000,
    );
    assert_eq!(released, Ok(()));
    assert_eq!(ledger.balance_of(r), 100);
    assert!(slot.is_none());
}

#[test]
fn refund_before_expiry_fails_not_expired() {
    let (mut ledger, mut list, _payments, d, _r) = setup();
    let (escrow, holding) = create_escrow(
        &mut ledger,
        &mut list,
        &create_accounts(d),
        100,
        "c1".to_string(),
        1000,
    )
    .unwrap();
    let mut slot = Some(escrow);
    let claim = Refund { sender: DEPOSITOR, escrow_token_account: holding, sender_token_account: d };
    // at the expiry time itself the escrow is not yet refundable
    assert_eq!(refund(&mut ledger, &mut slot, &claim, 1000), Err(RouterError::NotExpired));
    assert!(slot.is_some());
    assert_eq!(ledger.balance_of(holding), 100);
}

#[test]
fn refund_by_non_depositor_fails() {
    let (mut ledger, mut list, _payments, d, _r) = setup();
    let (escrow, holding) = create_escrow(
        &mut ledger,
        &mut list,
        &create_accounts(d),
        100,
        "c1".to_string(),
        1000,
    )
    .unwrap();
    let mut slot = Some(escrow);
    let claim = Refund { sender: RECIPIENT, escrow_token_account: holding, sender_token_account: d };
    assert_eq!(refund(&mut ledger, &mut slot, &claim, 1500), Err(RouterError::BadAuthority));
    assert!(slot.is_some());
}

#[test]
fn create_with_insufficient_funds_fails_atomically() {
    let (mut ledger, mut list, _payments, d, _r) = setup();
    let created = create_escrow(
        &mut ledger,
        &mut list,
        &create_accounts(d),
        101,
        "c1".to_string(),
        1000,
    );
    assert_eq!(created.unwrap_err(), RouterError::InsufficientFunds);
    // no registry entry, no holding account, balance untouched
    assert_eq!(list.escrows.len(), 0);
    assert_eq!(ledger.accounts.len(), 2);
    assert_eq!(ledger.balance_of(d), 100);
}

#[test]
fn create_with_foreign_funding_account_fails() {
    let (mut ledger, mut list, _payments, _d, r) = setup();
    // funding account owned by the recipient, not the claimed sender
    let mut accounts = create_accounts(r);
    let created = create_escrow(&mut ledger, &mut list, &accounts, 10, "c1".to_string(), 1000);
    assert_eq!(created.unwrap_err(), RouterError::BadAuthority);
    // funding account of another asset kind
    let other = ledger.open_account(AuthorityKey::User(DEPOSITOR), MINT + 1, 50);
    accounts.sender_token_account = other;
    let created = create_escrow(&mut ledger, &mut list, &accounts, 10, "c1".to_string(), 1000);
    assert_eq!(created.unwrap_err(), RouterError::MissingOrMismatchedAccount);
    // funding account index out of range
    accounts.sender_token_account = 99;
    let created = create_escrow(&mut ledger, &mut list, &accounts, 10, "c1".to_string(), 1000);
    assert_eq!(created.unwrap_err(), RouterError::MissingOrMismatchedAccount);
    assert_eq!(list.escrows.len(), 0);
}

#[test]
fn release_with_mismatched_holding_account_fails() {
    let (mut ledger, mut list, mut payments, d, r) = setup();
    let (escrow, holding) = create_escrow(
        &mut ledger,
        &mut list,
        &create_accounts(d),
        100,
        "c1".to_string(),
        1000,
    )
    .unwrap();
    let mut slot = Some(escrow);
    assert_eq!(
        fulfill_condition(slot.as_mut().unwrap(), &FulfillCondition { recipient: RECIPIENT }, 100),
        Ok(())
    );
    // the depositor's own account is not under the escrow's authority
    let released = release_payment(
        &mut ledger,
        &mut payments,
        &mut slot,
        &ReleasePayment { escrow_token_account: d, recipient_token_account: r },
        200,
    );
    assert_eq!(released, Err(RouterError::MissingOrMismatchedAccount));
    assert!(slot.is_some());
    assert_eq!(ledger.balance_of(holding), 100);
    assert_eq!(payments.payments.len(), 0);
}

#[test]
fn initialize_registries_once() {
    let mut escrows = None;
    assert_eq!(initialize_escrow_list(&mut escrows, 4), Ok(()));
    assert_eq!(escrows.as_ref().unwrap().bump, 4);
    assert_eq!(escrows.as_ref().unwrap().escrows.len(), 0);
    assert_eq!(initialize_escrow_list(&mut escrows, 5), Err(RouterError::AlreadyInitialized));
    assert_eq!(escrows.as_ref().unwrap().bump, 4);

    let mut paid = None;
    assert_eq!(initialize_payment_list(&mut paid, 6), Ok(()));
    assert_eq!(paid.as_ref().unwrap().bump, 6);
    assert_eq!(paid.as_ref().unwrap().payments.len(), 0);
    assert_eq!(initialize_payment_list(&mut paid, 7), Err(RouterError::AlreadyInitialized));
    assert_eq!(paid.as_ref().unwrap().bump, 6);
}
