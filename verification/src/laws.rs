//! Laws of the escrow lifecycle, proved over the same spec functions
//! the executable contracts use.

use vstd::prelude::*;
use crate::conditional::active_escrows;
use crate::conditional::derived_authority;
use crate::conditional::fulfill_next;
use crate::conditional::fulfilled_escrow;
use crate::conditional::refund_check;
use crate::conditional::release_check;
use crate::conditional::Refund;
use crate::conditional::ReleasePayment;
use crate::errors::RouterError;
use crate::escrow::EscrowDataView;
use crate::escrow::EscrowView;
use crate::ledger::AuthorityKey;
use crate::ledger::TokenAccount;
use crate::registry::LIST_CAPACITY;

verus! {

/// One fulfillment attempt, by some attester at some time.
pub open spec fn fulfill_step(pre: EscrowView, post: EscrowView) -> bool {
    exists|attester: u64, now: i64| post == fulfill_next(pre, attester, now)
}

/// A fulfillment attempt on an already-fulfilled escrow changes
/// nothing, and the only change any attempt can make is setting the
/// flag from false to true; no attempt ever clears it.
pub proof fn lemma_fulfill_step_only_sets(pre: EscrowView, post: EscrowView)
    requires
        fulfill_step(pre, post),
    ensures
        pre.is_fulfilled ==> post == pre,
        post != pre ==> !pre.is_fulfilled && post == fulfilled_escrow(pre),
        pre.is_fulfilled ==> post.is_fulfilled,
{
    let (attester, now) = choose|attester: u64, now: i64|
        post == fulfill_next(pre, attester, now);
}

/// Across any run of fulfillment attempts, `is_fulfilled` is monotonic:
/// once it is set it stays set, so it transitions at most once, and
/// only from false to true.
pub proof fn lemma_fulfillment_monotonic(trace: Seq<EscrowView>, i: int, j: int)
    requires
        forall|k: int| 0 <= k < trace.len() - 1 ==> #[trigger] fulfill_step(trace[k], trace[k + 1]),
        0 <= i <= j < trace.len(),
        trace[i].is_fulfilled,
    ensures
        trace[j].is_fulfilled,
    decreases j - i,
{
    if i < j {
        assert(fulfill_step(trace[i], trace[i + 1]));
        lemma_fulfill_step_only_sets(trace[i], trace[i + 1]);
        lemma_fulfillment_monotonic(trace, i + 1, j);
    }
}

/// The accounts a release presents are consistent with the escrow: the
/// holding account stands under the escrow's derived authority, the
/// mints agree, the payment registry has room and the holding account
/// holds the amount.
pub open spec fn release_accounts_consistent(
    e: EscrowView,
    ledger: Seq<TokenAccount>,
    payments_len: int,
    a: ReleasePayment,
) -> bool {
    let eta = a.escrow_token_account as int;
    let rta = a.recipient_token_account as int;
    &&& eta < ledger.len()
    &&& rta < ledger.len()
    &&& eta != rta
    &&& ledger[eta].owner == derived_authority(e.sender, e.recipient, e.mint)
    &&& ledger[eta].mint == e.mint
    &&& ledger[rta].mint == e.mint
    &&& payments_len < LIST_CAPACITY
    &&& ledger[eta].balance >= e.amount
}

/// With consistent accounts, a release goes through exactly when the
/// condition is fulfilled and the expiry time has not passed, and a
/// rejected release names the matching lifecycle error.
pub proof fn lemma_release_iff(
    e: EscrowView,
    ledger: Seq<TokenAccount>,
    payments_len: int,
    a: ReleasePayment,
    now: i64,
)
    requires
        release_accounts_consistent(e, ledger, payments_len, a),
    ensures
        release_check(e, ledger, payments_len, a, now) is None <==> (e.is_fulfilled && now
            <= e.expiry_time),
        !e.is_fulfilled ==> release_check(e, ledger, payments_len, a, now) == Some(
            RouterError::ConditionNotFulfilled,
        ),
        e.is_fulfilled && now > e.expiry_time ==> release_check(e, ledger, payments_len, a, now)
            == Some(RouterError::Expired),
{
}

/// The accounts a refund presents are consistent with the escrow: the
/// caller is the depositor, the holding account stands under the
/// escrow's derived authority, the destination is the depositor's, the
/// mints agree and the holding account holds the amount.
pub open spec fn refund_accounts_consistent(
    e: EscrowView,
    ledger: Seq<TokenAccount>,
    a: Refund,
) -> bool {
    let eta = a.escrow_token_account as int;
    let sta = a.sender_token_account as int;
    &&& a.sender == e.sender
    &&& eta < ledger.len()
    &&& sta < ledger.len()
    &&& eta != sta
    &&& ledger[eta].owner == derived_authority(e.sender, e.recipient, e.mint)
    &&& ledger[sta].owner == AuthorityKey::User(e.sender)
    &&& ledger[eta].mint == e.mint
    &&& ledger[sta].mint == e.mint
    &&& ledger[eta].balance >= e.amount
}

/// With consistent accounts, a refund goes through exactly when the
/// condition is unfulfilled and the expiry time has passed, and a
/// rejected refund names the matching lifecycle error.
pub proof fn lemma_refund_iff(
    e: EscrowView,
    ledger: Seq<TokenAccount>,
    a: Refund,
    now: i64,
)
    requires
        refund_accounts_consistent(e, ledger, a),
    ensures
        refund_check(e, ledger, a, now) is None <==> (!e.is_fulfilled && now > e.expiry_time),
        e.is_fulfilled ==> refund_check(e, ledger, a, now) == Some(RouterError::AlreadyFulfilled),
        !e.is_fulfilled && now <= e.expiry_time ==> refund_check(e, ledger, a, now) == Some(
            RouterError::NotExpired,
        ),
{
}

/// A fulfilled escrow past its expiry has no transition left: release
/// and refund both reject it, whatever accounts are presented.
pub proof fn lemma_fulfilled_expired_is_stuck(
    e: EscrowView,
    ledger: Seq<TokenAccount>,
    payments_len: int,
    rel: ReleasePayment,
    refd: Refund,
    now: i64,
)
    requires
        e.is_fulfilled,
        now > e.expiry_time,
    ensures
        release_check(e, ledger, payments_len, rel, now) == Some(RouterError::Expired),
        refund_check(e, ledger, refd, now) is Some,
{
}

/// No snapshot the escrow listing returns carries a fulfilled flag.
pub proof fn lemma_active_escrows_unfulfilled(s: Seq<EscrowDataView>)
    ensures
        forall|i: int|
            0 <= i < active_escrows(s).len() ==> !(#[trigger] active_escrows(s)[i]).is_fulfilled,
{
    assert forall|i: int|
        0 <= i < active_escrows(s).len() implies !(#[trigger] active_escrows(
        s,
    )[i]).is_fulfilled by {
        s.lemma_filter_pred(|d: EscrowDataView| !d.is_fulfilled, i);
    }
}

} // verus!
