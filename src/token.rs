use vstd::prelude::*;

use crate::auth::{AccountId, AuthContext};
use crate::error::Error;

verus! {

/// Display name that a token ledger takes at construction.
pub open spec fn token_name() -> Seq<char> {
    "EnerTrade"@
}

/// Ticker symbol that a token ledger takes at construction.
pub open spec fn token_symbol() -> Seq<char> {
    "Ener"@
}

/// Decimal places that a token ledger takes at construction.
pub const TOKEN_DECIMALS: u32 = 18;

/// The balance held by `account` in a list of (account, balance) entries,
/// 0 where the account has no entry.
pub open spec fn balance_in(entries: Seq<(AccountId, i128)>, account: AccountId) -> int
    decreases entries.len(),
{
    if entries.len() == 0 {
        0
    } else if entries.last().0 == account {
        entries.last().1 as int
    } else {
        balance_in(entries.drop_last(), account)
    }
}

/// The sum of all balances in a list of entries.
pub open spec fn sum_of(entries: Seq<(AccountId, i128)>) -> int
    decreases entries.len(),
{
    if entries.len() == 0 {
        0
    } else {
        sum_of(entries.drop_last()) + entries.last().1
    }
}

/// No account has two entries.
pub open spec fn accounts_unique(entries: Seq<(AccountId, i128)>) -> bool {
    forall|i: int, j: int|
        0 <= i < entries.len() && 0 <= j < entries.len() && i != j ==> entries[i].0 != entries[j].0
}

/// No balance is negative.
pub open spec fn balances_non_negative(entries: Seq<(AccountId, i128)>) -> bool {
    forall|i: int| 0 <= i < entries.len() ==> entries[i].1 >= 0
}

proof fn lemma_balance_at(entries: Seq<(AccountId, i128)>, i: int)
    requires
        accounts_unique(entries),
        0 <= i < entries.len(),
    ensures
        balance_in(entries, entries[i].0) == entries[i].1,
    decreases entries.len(),
{
    if i < entries.len() - 1 {
        lemma_balance_at(entries.drop_last(), i);
    }
}

proof fn lemma_balance_absent(entries: Seq<(AccountId, i128)>, account: AccountId)
    requires
        forall|i: int| 0 <= i < entries.len() ==> entries[i].0 != account,
    ensures
        balance_in(entries, account) == 0,
    decreases entries.len(),
{
    if entries.len() > 0 {
        lemma_balance_absent(entries.drop_last(), account);
    }
}

proof fn lemma_balance_bounded(entries: Seq<(AccountId, i128)>, account: AccountId)
    requires
        balances_non_negative(entries),
    ensures
        0 <= balance_in(entries, account) <= sum_of(entries),
        0 <= sum_of(entries),
    decreases entries.len(),
{
    if entries.len() > 0 {
        lemma_balance_bounded(entries.drop_last(), account);
    }
}

proof fn lemma_overwrite(entries: Seq<(AccountId, i128)>, i: int, value: i128)
    requires
        accounts_unique(entries),
        0 <= i < entries.len(),
    ensures
        forall|a: AccountId| #[trigger] balance_in(entries.update(i, (entries[i].0, value)), a)
            == if a == entries[i].0 { value as int } else { balance_in(entries, a) },
        sum_of(entries.update(i, (entries[i].0, value))) == sum_of(entries) - entries[i].1 + value,
    decreases entries.len(),
{
    let updated = entries.update(i, (entries[i].0, value));
    if i == entries.len() - 1 {
        assert(updated.drop_last() =~= entries.drop_last());
        assert forall|a: AccountId| #[trigger] balance_in(updated, a)
            == if a == entries[i].0 { value as int } else { balance_in(entries, a) } by {
        }
    } else {
        lemma_overwrite(entries.drop_last(), i, value);
        assert(updated.drop_last() =~= entries.drop_last().update(i, (entries[i].0, value)));
        assert forall|a: AccountId| #[trigger] balance_in(updated, a)
            == if a == entries[i].0 { value as int } else { balance_in(entries, a) } by {
            if a == entries.last().0 {
                assert(a != entries[i].0);
            } else {
                assert(balance_in(updated, a) == balance_in(entries.drop_last().update(i, (entries[i].0, value)), a));
            }
        }
    }
}

/// A fungible token ledger: metadata, an owner, one minter, and balances
/// whose sum is the total supply.
pub struct EnerTrade {
    owner: Option<AccountId>,
    minter: Option<AccountId>,
    name: String,
    symbol: String,
    decimals: u32,
    supply: i128,
    balances: Vec<(AccountId, i128)>,
}

impl EnerTrade {
    /// The administrator, once constructed.
    pub closed spec fn owner_spec(&self) -> Option<AccountId> {
        self.owner
    }

    /// The single account allowed to mint, once set.
    pub closed spec fn minter_spec(&self) -> Option<AccountId> {
        self.minter
    }

    /// The balance of `account`; 0 for an account never credited.
    pub closed spec fn balance_spec(&self, account: AccountId) -> int {
        balance_in(self.balances@, account)
    }

    /// The total supply.
    pub closed spec fn supply_spec(&self) -> int {
        self.supply as int
    }

    pub closed spec fn name_spec(&self) -> Seq<char> {
        self.name@
    }

    pub closed spec fn symbol_spec(&self) -> Seq<char> {
        self.symbol@
    }

    pub closed spec fn decimals_spec(&self) -> u32 {
        self.decimals
    }

    /// Well-formed: every balance is non-negative, each account has one
    /// entry, and the total supply is the sum of all balances.
    pub closed spec fn wf(&self) -> bool {
        &&& accounts_unique(self.balances@)
        &&& balances_non_negative(self.balances@)
        &&& sum_of(self.balances@) == self.supply as int
    }

    /// Everything but the owner is as in `other`.
    pub open spec fn same_but_owner(&self, other: &EnerTrade) -> bool {
        &&& self.minter_spec() == other.minter_spec()
        &&& self.supply_spec() == other.supply_spec()
        &&& forall|a: AccountId| #[trigger] self.balance_spec(a) == other.balance_spec(a)
        &&& self.name_spec() == other.name_spec()
        &&& self.symbol_spec() == other.symbol_spec()
        &&& self.decimals_spec() == other.decimals_spec()
    }

    /// Whether `auth` carries the proof of the current owner.
    pub open spec fn owner_approves(&self, auth: &AuthContext) -> bool {
        match self.owner_spec() {
            Some(o) => auth.signed_by(o),
            None => false,
        }
    }

    /// Whether `auth` carries the proof of the current minter.
    pub open spec fn minter_approves(&self, auth: &AuthContext) -> bool {
        match self.minter_spec() {
            Some(m) => auth.signed_by(m),
            None => false,
        }
    }

    /// Every balance is non-negative and at most the total supply.
    pub proof fn lemma_balance_within_supply(&self, account: AccountId)
        requires
            self.wf(),
        ensures
            0 <= self.balance_spec(account) <= self.supply_spec(),
    {
        lemma_balance_bounded(self.balances@, account);
    }

    /// A ledger before construction: no owner, no minter, no tokens.
    pub fn new() -> (r: EnerTrade)
        ensures
            r.wf(),
            r.owner_spec() == None::<AccountId>,
            r.minter_spec() == None::<AccountId>,
            r.supply_spec() == 0,
            forall|a: AccountId| #[trigger] r.balance_spec(a) == 0,
    {
        EnerTrade {
            owner: None,
            minter: None,
            name: String::new(),
            symbol: String::new(),
            decimals: 0,
            supply: 0,
            balances: Vec::new(),
        }
    }

    /// The index of the entry of `account`, if it has one.
    fn position(&self, account: AccountId) -> (r: Option<usize>)
        ensures
            match r {
                Some(i) => i < self.balances@.len() && self.balances@[i as int].0 == account,
                None => forall|j: int| 0 <= j < self.balances@.len() ==> self.balances@[j].0 != account,
            },
    {
        let mut i: usize = 0;
        while i < self.balances.len()
            invariant
                i <= self.balances@.len(),
                forall|j: int| 0 <= j < i ==> self.balances@[j].0 != account,
            decreases self.balances@.len() - i,
        {
            if self.balances[i].0 == account {
                return Some(i);
            }
            i = i + 1;
        }
        None
    }

    /// Reads the balance of `account` from the entries.
    fn stored_balance(&self, account: AccountId) -> (r: i128)
        requires
            self.wf(),
        ensures
            r as int == self.balance_spec(account),
            0 <= r <= self.supply,
    {
        proof {
            lemma_balance_bounded(self.balances@, account);
        }
        match self.position(account) {
            Some(i) => {
                proof {
                    lemma_balance_at(self.balances@, i as int);
                }
                self.balances[i].1
            },
            None => {
                proof {
                    lemma_balance_absent(self.balances@, account);
                }
                0
            },
        }
    }

    /// Sets the balance of `account` to `value`; the sum of the balances
    /// moves by the difference, and the total supply is left to the caller.
    fn store_balance(&mut self, account: AccountId, value: i128)
        requires
            accounts_unique(old(self).balances@),
            balances_non_negative(old(self).balances@),
            value >= 0,
        ensures
            accounts_unique(final(self).balances@),
            balances_non_negative(final(self).balances@),
            sum_of(final(self).balances@) == sum_of(old(self).balances@) - old(self).balance_spec(account) + value,
            forall|a: AccountId| #[trigger] final(self).balance_spec(a)
                == if a == account { value as int } else { old(self).balance_spec(a) },
            final(self).owner == old(self).owner,
            final(self).minter == old(self).minter,
            final(self).name == old(self).name,
            final(self).symbol == old(self).symbol,
            final(self).decimals == old(self).decimals,
            final(self).supply == old(self).supply,
    {
        match self.position(account) {
            Some(i) => {
                proof {
                    lemma_balance_at(self.balances@, i as int);
                    lemma_overwrite(self.balances@, i as int, value);
                }
                self.balances.set(i, (account, value));
            },
            None => {
                proof {
                    lemma_balance_absent(self.balances@, account);
                }
                self.balances.push((account, value));
                proof {
                    let entries = self.balances@;
                    assert(entries.drop_last() =~= old(self).balances@);
                    assert forall|a: AccountId| #[trigger] balance_in(entries, a)
                        == if a == account { value as int } else { balance_in(old(self).balances@, a) } by {
                    }
                }
            },
        }
    }

    /// The outcome of `construct`: how its result and the state after it relate to the state before.
    pub open spec fn construct_post(pre: &Self, post: &Self, owner: AccountId, r: Result<(), Error>) -> bool {
        &&& (pre.owner_spec() is Some <==> r == Err::<(), Error>(Error::AlreadyInitialized))
        &&& (pre.owner_spec() is None <==> r is Ok)
        &&& (r is Err ==> *post == *pre)
        &&& (r is Ok ==> {
            &&& post.owner_spec() == Some(owner)
            &&& post.name_spec() == token_name()
            &&& post.symbol_spec() == token_symbol()
            &&& post.decimals_spec() == TOKEN_DECIMALS
            &&& post.minter_spec() == pre.minter_spec()
            &&& post.supply_spec() == pre.supply_spec()
            &&& forall|a: AccountId| #[trigger] post.balance_spec(a) == pre.balance_spec(a)
        })
    }

    /// Sets the owner and the metadata; fails if the ledger was constructed
    /// before, and then changes nothing.
    pub fn construct(&mut self, owner: AccountId) -> (r: Result<(), Error>)
        requires
            old(self).wf(),
        ensures
            final(self).wf(),
            Self::construct_post(old(self), final(self), owner, r),
    {
        if self.owner.is_some() {
            return Err(Error::AlreadyInitialized);
        }
        self.owner = Some(owner);
        self.name = "EnerTrade".to_owned();
        self.symbol = "Ener".to_owned();
        self.decimals = TOKEN_DECIMALS;
        Ok(())
    }

    /// Replaces the minter; owner only.
    pub fn set_minter_addr(&mut self, auth: &AuthContext, addr: AccountId) -> (r: Result<(), Error>)
        requires
            old(self).wf(),
        ensures
            final(self).wf(),
            !old(self).owner_approves(auth) <==> r == Err::<(), Error>(Error::Unauthorized),
            old(self).owner_approves(auth) <==> r is Ok,
            r is Err ==> *final(self) == *old(self),
            r is Ok ==> {
                &&& final(self).minter_spec() == Some(addr)
                &&& final(self).owner_spec() == old(self).owner_spec()
                &&& final(self).supply_spec() == old(self).supply_spec()
                &&& forall|a: AccountId| #[trigger] final(self).balance_spec(a) == old(self).balance_spec(a)
            },
    {
        if !self.owner_is_approved(auth) {
            return Err(Error::Unauthorized);
        }
        self.minter = Some(addr);
        Ok(())
    }

    /// Whether `auth` carries the proof of the current owner.
    fn owner_is_approved(&self, auth: &AuthContext) -> (r: bool)
        ensures
            r == self.owner_approves(auth),
    {
        match self.owner {
            Some(o) => auth.has_proof(o),
            None => false,
        }
    }

    /// Whether `auth` carries the proof of the current minter.
    pub fn minter_is_approved(&self, auth: &AuthContext) -> (r: bool)
        ensures
            r == self.minter_approves(auth),
    {
        match self.minter {
            Some(m) => auth.has_proof(m),
            None => false,
        }
    }

    /// The outcome of `mint`: how its result and the state after it relate to the state before.
    pub open spec fn mint_post(pre: &Self, post: &Self, auth: &AuthContext, account: AccountId, amount: i128, r: Result<(), Error>) -> bool {
        &&& (r == Err::<(), Error>(Error::Unauthorized) <==> !pre.minter_approves(auth))
        &&& (r == Err::<(), Error>(Error::InvalidAmount) <==> pre.minter_approves(auth) && amount < 0)
        &&& (r == Err::<(), Error>(Error::ArithmeticOverflow) <==> pre.minter_approves(auth) && amount >= 0
            && pre.supply_spec() + amount > i128::MAX)
        &&& (r is Ok <==> pre.minter_approves(auth) && amount >= 0
            && pre.supply_spec() + amount <= i128::MAX)
        &&& (r is Err ==> *post == *pre)
        &&& (r is Ok ==> {
            &&& post.supply_spec() == pre.supply_spec() + amount
            &&& forall|a: AccountId| #[trigger] post.balance_spec(a)
                == if a == account { pre.balance_spec(a) + amount } else { pre.balance_spec(a) }
            &&& post.owner_spec() == pre.owner_spec()
            &&& post.minter_spec() == pre.minter_spec()
        })
    }

    /// Credits `amount` new tokens to `account`; minter only.
    pub fn mint(&mut self, auth: &AuthContext, account: AccountId, amount: i128) -> (r: Result<(), Error>)
        requires
            old(self).wf(),
        ensures
            final(self).wf(),
            Self::mint_post(old(self), final(self), auth, account, amount, r),
    {
        if !self.minter_is_approved(auth) {
            return Err(Error::Unauthorized);
        }
        if amount < 0 {
            return Err(Error::InvalidAmount);
        }
        let supply = match self.supply.checked_add(amount) {
            Some(s) => s,
            None => return Err(Error::ArithmeticOverflow),
        };
        let current = self.stored_balance(account);
        self.supply = supply;
        self.store_balance(account, current + amount);
        Ok(())
    }

    /// Moves `amount` tokens from `from` to `to`; needs the proof of `from`.
    /// Moving to oneself changes nothing.
    pub fn transfer(&mut self, auth: &AuthContext, from: AccountId, to: AccountId, amount: i128) -> (r: Result<(), Error>)
        requires
            old(self).wf(),
        ensures
            final(self).wf(),
            r == Err::<(), Error>(Error::Unauthorized) <==> !auth.signed_by(from),
            r == Err::<(), Error>(Error::InvalidAmount) <==> auth.signed_by(from) && amount < 0,
            r == Err::<(), Error>(Error::InsufficientBalance) <==> auth.signed_by(from) && amount >= 0
                && old(self).balance_spec(from) < amount,
            r is Ok <==> auth.signed_by(from) && amount >= 0 && old(self).balance_spec(from) >= amount,
            r is Err ==> *final(self) == *old(self),
            r is Ok ==> {
                &&& final(self).supply_spec() == old(self).supply_spec()
                &&& forall|a: AccountId| #[trigger] final(self).balance_spec(a)
                    == old(self).balance_spec(a) - (if a == from { amount as int } else { 0 })
                        + (if a == to { amount as int } else { 0 })
                &&& final(self).owner_spec() == old(self).owner_spec()
                &&& final(self).minter_spec() == old(self).minter_spec()
            },
    {
        if !auth.has_proof(from) {
            return Err(Error::Unauthorized);
        }
        if amount < 0 {
            return Err(Error::InvalidAmount);
        }
        let from_balance = self.stored_balance(from);
        if from_balance < amount {
            return Err(Error::InsufficientBalance);
        }
        if from == to {
            return Ok(());
        }
        let to_balance = self.stored_balance(to);
        self.store_balance(from, from_balance - amount);
        proof {
            lemma_balance_bounded(self.balances@, to);
            assert(self.balance_spec(to) == to_balance);
        }
        self.store_balance(to, to_balance + amount);
        Ok(())
    }

    /// Destroys `amount` tokens of `from`; needs the proof of `from`.
    pub fn burn(&mut self, auth: &AuthContext, from: AccountId, amount: i128) -> (r: Result<(), Error>)
        requires
            old(self).wf(),
        ensures
            final(self).wf(),
            r == Err::<(), Error>(Error::Unauthorized) <==> !auth.signed_by(from),
            r == Err::<(), Error>(Error::InvalidAmount) <==> auth.signed_by(from) && amount < 0,
            r == Err::<(), Error>(Error::InsufficientBalance) <==> auth.signed_by(from) && amount >= 0
                && old(self).balance_spec(from) < amount,
            r is Ok <==> auth.signed_by(from) && amount >= 0 && old(self).balance_spec(from) >= amount,
            r is Err ==> *final(self) == *old(self),
            r is Ok ==> {
                &&& final(self).supply_spec() == old(self).supply_spec() - amount
                &&& forall|a: AccountId| #[trigger] final(self).balance_spec(a)
                    == if a == from { old(self).balance_spec(a) - amount } else { old(self).balance_spec(a) }
                &&& final(self).owner_spec() == old(self).owner_spec()
                &&& final(self).minter_spec() == old(self).minter_spec()
            },
    {
        if !auth.has_proof(from) {
            return Err(Error::Unauthorized);
        }
        if amount < 0 {
            return Err(Error::InvalidAmount);
        }
        let current = self.stored_balance(from);
        if current < amount {
            return Err(Error::InsufficientBalance);
        }
        self.supply = self.supply - amount;
        self.store_balance(from, current - amount);
        Ok(())
    }

    /// The balance of `id`; 0 for an account never credited.
    pub fn balance(&self, id: AccountId) -> (r: i128)
        requires
            self.wf(),
        ensures
            r as int == self.balance_spec(id),
            r >= 0,
    {
        self.stored_balance(id)
    }

    /// The display name.
    pub fn name(&self) -> (r: String)
        ensures
            r@ == self.name_spec(),
    {
        self.name.clone()
    }

    /// The ticker symbol.
    pub fn symbol(&self) -> (r: String)
        ensures
            r@ == self.symbol_spec(),
    {
        self.symbol.clone()
    }

    /// The number of decimal places.
    pub fn decimals(&self) -> (r: u32)
        ensures
            r == self.decimals_spec(),
    {
        self.decimals
    }

    /// The total supply.
    pub fn total_supply(&self) -> (r: i128)
        ensures
            r as int == self.supply_spec(),
    {
        self.supply
    }

    /// The outcome of `transfer_ownership`: how its result and the state after it relate to the state before.
    pub open spec fn transfer_ownership_post(pre: &Self, post: &Self, auth: &AuthContext, new_owner: AccountId, r: Result<(), Error>) -> bool {
        &&& (!pre.owner_approves(auth) <==> r == Err::<(), Error>(Error::Unauthorized))
        &&& (pre.owner_approves(auth) <==> r is Ok)
        &&& (r is Err ==> *post == *pre)
        &&& (r is Ok ==> post.owner_spec() == Some(new_owner) && post.same_but_owner(pre))
    }

    /// Hands the ledger to `new_owner`; owner only.
    pub fn transfer_ownership(&mut self, auth: &AuthContext, new_owner: AccountId) -> (r: Result<(), Error>)
        requires
            old(self).wf(),
        ensures
            final(self).wf(),
            Self::transfer_ownership_post(old(self), final(self), auth, new_owner, r),
    {
        if !self.owner_is_approved(auth) {
            return Err(Error::Unauthorized);
        }
        self.owner = Some(new_owner);
        Ok(())
    }

    /// The current owner; none before construction.
    pub fn owner(&self) -> (r: Option<AccountId>)
        ensures
            r == self.owner_spec(),
    {
        self.owner
    }
}

} // verus!
