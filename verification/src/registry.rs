//! The two bounded, append-only registries: created escrows and
//! completed releases.  Entries are historical records; they are never
//! updated or evicted, and an append past capacity is rejected.

use vstd::prelude::*;
use crate::errors::RouterError;
use crate::escrow::EscrowData;
use crate::escrow::EscrowDataView;

verus! {

/// Fixed capacity of both registries; no eviction past it.
pub const LIST_CAPACITY: usize = 10;

/// Bounded, append-only log of escrow snapshots, one per creation.
pub struct EscrowList {
    pub escrows: Vec<EscrowData>,
    pub bump: u8,
}

/// Bounded, append-only log of completed releases, one per release and
/// never one per refund.
pub struct PaymentList {
    pub payments: Vec<Payment>,
    pub bump: u8,
}

/// A completed release: the amount moved, the account it was moved to,
/// and the time of the release.
#[derive(Clone, Copy, Debug, PartialEq, Eq, Structural)]
pub struct Payment {
    pub amount: u64,
    pub recipient: u64,
    pub timestamp: i64,
}

impl View for EscrowList {
    type V = Seq<EscrowDataView>;

    open spec fn view(&self) -> Seq<EscrowDataView> {
        self.escrows@.map_values(|d: EscrowData| d@)
    }
}

impl View for PaymentList {
    type V = Seq<Payment>;

    open spec fn view(&self) -> Seq<Payment> {
        self.payments@
    }
}

impl EscrowList {
    /// Within capacity; established at initialization and preserved by
    /// every append.
    pub open spec fn wf(&self) -> bool {
        self@.len() <= LIST_CAPACITY
    }

    /// An empty registry under the given derivation nonce.
    pub fn new(bump: u8) -> (r: EscrowList)
        ensures
            r@ == Seq::<EscrowDataView>::empty(),
            r.bump == bump,
            r.wf(),
    {
        let r = EscrowList { escrows: Vec::new(), bump };
        proof {
            assert(r@ =~= Seq::<EscrowDataView>::empty());
        }
        r
    }

    /// Appends a snapshot; an append past capacity fails with
    /// `RegistryFull` and leaves the stored entries untouched.
    pub fn push_escrow(&mut self, data: EscrowData) -> (r: Result<(), RouterError>)
        ensures
            old(self)@.len() < LIST_CAPACITY ==> r == Ok::<(), RouterError>(()) && final(self)@
                == old(self)@.push(data@),
            old(self)@.len() >= LIST_CAPACITY ==> r == Err::<(), RouterError>(
                RouterError::RegistryFull,
            ) && final(self)@ == old(self)@,
            final(self).bump == old(self).bump,
            old(self).wf() ==> final(self).wf(),
    {
        if self.escrows.len() >= LIST_CAPACITY {
            return Err(RouterError::RegistryFull);
        }
        let ghost pre = self.escrows@;
        self.escrows.push(data);
        proof {
            assert(self.escrows@.map_values(|d: EscrowData| d@) =~= pre.map_values(
                |d: EscrowData| d@,
            ).push(data@));
        }
        Ok(())
    }
}

impl PaymentList {
    /// Within capacity; established at initialization and preserved by
    /// every append.
    pub open spec fn wf(&self) -> bool {
        self@.len() <= LIST_CAPACITY
    }

    /// An empty registry under the given derivation nonce.
    pub fn new(bump: u8) -> (r: PaymentList)
        ensures
            r@ == Seq::<Payment>::empty(),
            r.bump == bump,
            r.wf(),
    {
        PaymentList { payments: Vec::new(), bump }
    }

    /// Appends a release record; an append past capacity fails with
    /// `RegistryFull` and leaves the stored entries untouched.
    pub fn push_payment(&mut self, payment: Payment) -> (r: Result<(), RouterError>)
        ensures
            old(self)@.len() < LIST_CAPACITY ==> r == Ok::<(), RouterError>(()) && final(self)@
                == old(self)@.push(payment),
            old(self)@.len() >= LIST_CAPACITY ==> r == Err::<(), RouterError>(
                RouterError::RegistryFull,
            ) && final(self)@ == old(self)@,
            final(self).bump == old(self).bump,
            old(self).wf() ==> final(self).wf(),
    {
        if self.payments.len() >= LIST_CAPACITY {
            return Err(RouterError::RegistryFull);
        }
        self.payments.push(payment);
        Ok(())
    }
}

} // verus!
