//! Model of the external token ledger: accounts holding a fungible
//! asset, and the transfer capability that moves units between them.

use vstd::prelude::*;
use crate::errors::RouterError;

verus! {

/// An authorization for outgoing transfers: either a key held by a
/// caller, or the authority derived deterministically from an escrow's
/// (sender, recipient, mint) triple.  The derived variant is the
/// capability the lifecycle controller uses to sign on an escrow's
/// behalf; being a distinct variant it collides with no user key.
#[derive(Clone, Copy, Debug, PartialEq, Eq, Structural)]
pub enum AuthorityKey {
    User(u64),
    Derived { sender: u64, recipient: u64, mint: u64 },
}

/// One token account: the authority that controls it, the asset kind it
/// holds, and its balance.
#[derive(Clone, Copy, Debug, PartialEq, Eq, Structural)]
pub struct TokenAccount {
    pub owner: AuthorityKey,
    pub mint: u64,
    pub balance: u64,
}

/// The ledger: token accounts addressed by index.
pub struct Ledger {
    pub accounts: Vec<TokenAccount>,
}

impl View for Ledger {
    type V = Seq<TokenAccount>;

    open spec fn view(&self) -> Seq<TokenAccount> {
        self.accounts@
    }
}

impl Ledger {
    /// Which error a transfer request is rejected with, or `None` when
    /// it goes through.  Checks are made in this order.
    pub open spec fn transfer_check(
        s: Seq<TokenAccount>,
        from: int,
        to: int,
        authority: AuthorityKey,
        amount: u64,
    ) -> Option<RouterError> {
        if !(0 <= from < s.len() && 0 <= to < s.len()) {
            Some(RouterError::MissingOrMismatchedAccount)
        } else if s[from].owner != authority {
            Some(RouterError::BadAuthority)
        } else if s[from].mint != s[to].mint {
            Some(RouterError::MissingOrMismatchedAccount)
        } else if s[from].balance < amount {
            Some(RouterError::InsufficientFunds)
        } else {
            None
        }
    }

    /// The ledger contents after a successful transfer: `from` debited,
    /// then `to` credited (so a self-transfer nets to no change).
    pub open spec fn transfer_update(
        s: Seq<TokenAccount>,
        from: int,
        to: int,
        amount: u64,
    ) -> Seq<TokenAccount> {
        let debited = s.update(
            from,
            TokenAccount { balance: (s[from].balance - amount) as u64, ..s[from] },
        );
        debited.update(
            to,
            TokenAccount { balance: (debited[to].balance + amount) as u64, ..debited[to] },
        )
    }

    /// An empty ledger.
    pub fn new() -> (r: Ledger)
        ensures
            r@ == Seq::<TokenAccount>::empty(),
    {
        Ledger { accounts: Vec::new() }
    }

    /// Opens a fresh account; its index addresses it from then on.
    pub fn open_account(&mut self, owner: AuthorityKey, mint: u64, balance: u64) -> (idx: usize)
        ensures
            idx == old(self)@.len(),
            final(self)@ == old(self)@.push(TokenAccount { owner, mint, balance }),
    {
        let idx = self.accounts.len();
        self.accounts.push(TokenAccount { owner, mint, balance });
        idx
    }

    /// The balance an account currently holds.
    pub fn balance_of(&self, idx: usize) -> (r: u64)
        requires
            idx < self@.len(),
        ensures
            r == self@[idx as int].balance,
    {
        self.accounts[idx].balance
    }

    /// Moves `amount` from `from` to `to` when `authority` controls
    /// `from`, the mints agree and the funds suffice; otherwise rejects
    /// with the matching error and leaves every account unchanged.
    pub fn transfer(
        &mut self,
        from: usize,
        to: usize,
        authority: AuthorityKey,
        amount: u64,
    ) -> (r: Result<(), RouterError>)
        requires
            from != to && from < old(self)@.len() && to < old(self)@.len()
                ==> old(self)@[to as int].balance + amount <= u64::MAX,
        ensures
            match Ledger::transfer_check(old(self)@, from as int, to as int, authority, amount) {
                None => r == Ok::<(), RouterError>(()) && final(self)@ == Ledger::transfer_update(
                    old(self)@,
                    from as int,
                    to as int,
                    amount,
                ),
                Some(e) => r == Err::<(), RouterError>(e) && final(self)@ == old(self)@,
            },
    {
        if from >= self.accounts.len() || to >= self.accounts.len() {
            return Err(RouterError::MissingOrMismatchedAccount);
        }
        let from_acc = self.accounts[from];
        if from_acc.owner != authority {
            return Err(RouterError::BadAuthority);
        }
        if from_acc.mint != self.accounts[to].mint {
            return Err(RouterError::MissingOrMismatchedAccount);
        }
        if from_acc.balance < amount {
            return Err(RouterError::InsufficientFunds);
        }
        self.accounts[from] = TokenAccount { balance: from_acc.balance - amount, ..from_acc };
        let to_acc = self.accounts[to];
        self.accounts[to] = TokenAccount { balance: to_acc.balance + amount, ..to_acc };
        Ok(())
    }
}

} // verus!
