//! Escrow records and their registry snapshots.

use vstd::prelude::*;

verus! {

/// Ghost value of a live escrow record.
pub struct EscrowView {
    pub sender: u64,
    pub recipient: u64,
    pub mint: u64,
    pub amount: u64,
    pub condition: Seq<char>,
    pub is_fulfilled: bool,
    pub expiry_time: i64,
    pub bump: u8,
}

/// Ghost value of a registry snapshot (no derivation nonce).
pub struct EscrowDataView {
    pub sender: u64,
    pub recipient: u64,
    pub mint: u64,
    pub amount: u64,
    pub condition: Seq<char>,
    pub is_fulfilled: bool,
    pub expiry_time: i64,
}

/// The snapshot an escrow contributes to the escrow registry at creation.
pub open spec fn snapshot_of(e: EscrowView) -> EscrowDataView {
    EscrowDataView {
        sender: e.sender,
        recipient: e.recipient,
        mint: e.mint,
        amount: e.amount,
        condition: e.condition,
        is_fulfilled: e.is_fulfilled,
        expiry_time: e.expiry_time,
    }
}

/// One live escrow: a depositor (`sender`) locks `amount` units of
/// `mint` for `recipient`, bound to an opaque `condition` string and an
/// absolute `expiry_time`.  `bump` is the nonce under which the escrow's
/// transfer authority was derived.
#[derive(Debug)]
pub struct Escrow {
    pub sender: u64,
    pub recipient: u64,
    pub mint: u64,
    pub amount: u64,
    pub condition: String,
    pub is_fulfilled: bool,
    pub expiry_time: i64,
    pub bump: u8,
}

impl View for Escrow {
    type V = EscrowView;

    open spec fn view(&self) -> EscrowView {
        EscrowView {
            sender: self.sender,
            recipient: self.recipient,
            mint: self.mint,
            amount: self.amount,
            condition: self.condition@,
            is_fulfilled: self.is_fulfilled,
            expiry_time: self.expiry_time,
            bump: self.bump,
        }
    }
}

/// Lightweight snapshot stored in the escrow registry; a historical
/// record of the escrow as created, never updated afterwards.
#[derive(Debug)]
pub struct EscrowData {
    pub sender: u64,
    pub recipient: u64,
    pub mint: u64,
    pub amount: u64,
    pub condition: String,
    pub is_fulfilled: bool,
    pub expiry_time: i64,
}

impl View for EscrowData {
    type V = EscrowDataView;

    open spec fn view(&self) -> EscrowDataView {
        EscrowDataView {
            sender: self.sender,
            recipient: self.recipient,
            mint: self.mint,
            amount: self.amount,
            condition: self.condition@,
            is_fulfilled: self.is_fulfilled,
            expiry_time: self.expiry_time,
        }
    }
}

impl Escrow {
    /// Copies the registry-visible fields out of the record.
    pub fn snapshot(&self) -> (r: EscrowData)
        ensures
            r@ == snapshot_of(self@),
    {
        EscrowData {
            sender: self.sender,
            recipient: self.recipient,
            mint: self.mint,
            amount: self.amount,
            condition: self.condition.clone(),
            is_fulfilled: self.is_fulfilled,
            expiry_time: self.expiry_time,
        }
    }
}

impl EscrowData {
    /// Field-for-field copy; the registries hand copies out, never
    /// references into their storage.
    pub fn duplicate(&self) -> (r: EscrowData)
        ensures
            r@ == self@,
    {
        EscrowData {
            sender: self.sender,
            recipient: self.recipient,
            mint: self.mint,
            amount: self.amount,
            condition: self.condition.clone(),
            is_fulfilled: self.is_fulfilled,
            expiry_time: self.expiry_time,
        }
    }
}

} // verus!
