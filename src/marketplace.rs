use vstd::prelude::*;

use crate::auth::{AccountId, AuthContext};
use crate::error::Error;
use crate::oracle::OracleContract;
use crate::table::SymbolTable;
use crate::token::EnerTrade;

verus! {

/// `amount / price` rounded toward zero, for a positive price.
pub open spec fn truncated_div(amount: int, price: int) -> int {
    if amount >= 0 {
        amount / price
    } else {
        -((-amount) / price)
    }
}

/// The tokens bought by `amount` reference-asset units at `price` units per
/// token: the quotient rounded toward zero. The price is checked again here:
/// one that is zero or negative fails with `InvalidPrice`.
pub fn tokens_for_payment(amount: i128, price: i128) -> (r: Result<i128, Error>)
    ensures
        price <= 0 <==> r == Err::<i128, Error>(Error::InvalidPrice),
        price > 0 ==> (r matches Ok(t) && t as int == truncated_div(amount as int, price as int)),
{
    if price <= 0 {
        return Err(Error::InvalidPrice);
    }
    match amount.checked_div(price) {
        Some(t) => Ok(t),
        None => Err(Error::ArithmeticError),
    }
}

/// The audit event of a purchase: what `user` paid and was minted.
#[derive(Debug, Clone, Copy, PartialEq, Eq, Structural)]
pub struct MintedTokens {
    pub user: AccountId,
    pub amount_paid: i128,
    pub tokens_minted: i128,
}

/// The exchange: sells each configured token for the reference asset at the
/// price registry's price.
pub struct AmbarMarketplace {
    address: AccountId,
    owner: Option<AccountId>,
    oracle: Option<AccountId>,
    usdt: Option<AccountId>,
    contracts: SymbolTable<AccountId>,
}

impl AmbarMarketplace {
    /// The exchange's own account: it takes custody of payments and mints
    /// under it.
    pub closed spec fn address_spec(&self) -> AccountId {
        self.address
    }

    pub closed spec fn owner_spec(&self) -> Option<AccountId> {
        self.owner
    }

    /// The address of the price registry, once configured.
    pub closed spec fn oracle_spec(&self) -> Option<AccountId> {
        self.oracle
    }

    /// The address of the reference-asset ledger, once configured.
    pub closed spec fn usdt_spec(&self) -> Option<AccountId> {
        self.usdt
    }

    /// The address of the token ledger that mints `symbol`, if configured.
    pub closed spec fn contract_spec(&self, symbol: Seq<char>) -> Option<AccountId> {
        self.contracts.lookup(symbol)
    }

    /// Whether `auth` carries the proof of the current owner.
    pub open spec fn owner_approves(&self, auth: &AuthContext) -> bool {
        match self.owner_spec() {
            Some(o) => auth.signed_by(o),
            None => false,
        }
    }

    /// Everything but the owner is as in `other`.
    pub open spec fn same_but_owner(&self, other: &AmbarMarketplace) -> bool {
        &&& self.address_spec() == other.address_spec()
        &&& self.oracle_spec() == other.oracle_spec()
        &&& self.usdt_spec() == other.usdt_spec()
        &&& forall|s: Seq<char>| #[trigger] self.contract_spec(s) == other.contract_spec(s)
    }

    /// An exchange at `address` before construction: nothing configured.
    pub fn new(address: AccountId) -> (r: AmbarMarketplace)
        ensures
            r.address_spec() == address,
            r.owner_spec() == None::<AccountId>,
            r.oracle_spec() == None::<AccountId>,
            r.usdt_spec() == None::<AccountId>,
            forall|s: Seq<char>| #[trigger] r.contract_spec(s) == None::<AccountId>,
    {
        AmbarMarketplace { address, owner: None, oracle: None, usdt: None, contracts: SymbolTable::new() }
    }

    /// The outcome of `construct`: how its result and the state after it relate to the state before.
    pub open spec fn construct_post(pre: &Self, post: &Self, owner: AccountId, r: Result<(), Error>) -> bool {
        &&& (pre.owner_spec() is Some <==> r == Err::<(), Error>(Error::AlreadyInitialized))
        &&& (pre.owner_spec() is None <==> r is Ok)
        &&& (r is Err ==> *post == *pre)
        &&& (r is Ok ==> post.owner_spec() == Some(owner) && post.same_but_owner(pre))
    }

    /// Sets the owner; fails if the exchange was constructed before, and
    /// then changes nothing.
    pub fn construct(&mut self, owner: AccountId) -> (r: Result<(), Error>)
        ensures
            Self::construct_post(old(self), final(self), owner, r),
    {
        if self.owner.is_some() {
            return Err(Error::AlreadyInitialized);
        }
        self.owner = Some(owner);
        Ok(())
    }

    /// Whether `auth` carries the proof of the current owner.
    fn owner_is_approved(&self, auth: &AuthContext) -> (r: bool)
        ensures
            r == self.owner_approves(auth),
    {
        match self.owner {
            Some(o) => auth.has_proof(o),
            None => false,
        }
    }

    /// Points the exchange at the price registry `oracle`; owner only.
    pub fn set_oracle_contract(&mut self, auth: &AuthContext, oracle: AccountId) -> (r: Result<(), Error>)
        ensures
            !old(self).owner_approves(auth) <==> r == Err::<(), Error>(Error::Unauthorized),
            old(self).owner_approves(auth) <==> r is Ok,
            r is Err ==> *final(self) == *old(self),
            r is Ok ==> {
                &&& final(self).oracle_spec() == Some(oracle)
                &&& final(self).owner_spec() == old(self).owner_spec()
                &&& final(self).address_spec() == old(self).address_spec()
                &&& final(self).usdt_spec() == old(self).usdt_spec()
                &&& forall|s: Seq<char>| #[trigger] final(self).contract_spec(s) == old(self).contract_spec(s)
            },
    {
        if !self.owner_is_approved(auth) {
            return Err(Error::Unauthorized);
        }
        self.oracle = Some(oracle);
        Ok(())
    }

    /// Points the exchange at the reference-asset ledger `usdt`; owner only.
    pub fn set_usdt_contract(&mut self, auth: &AuthContext, usdt: AccountId) -> (r: Result<(), Error>)
        ensures
            !old(self).owner_approves(auth) <==> r == Err::<(), Error>(Error::Unauthorized),
            old(self).owner_approves(auth) <==> r is Ok,
            r is Err ==> *final(self) == *old(self),
            r is Ok ==> {
                &&& final(self).usdt_spec() == Some(usdt)
                &&& final(self).owner_spec() == old(self).owner_spec()
                &&& final(self).address_spec() == old(self).address_spec()
                &&& final(self).oracle_spec() == old(self).oracle_spec()
                &&& forall|s: Seq<char>| #[trigger] final(self).contract_spec(s) == old(self).contract_spec(s)
            },
    {
        if !self.owner_is_approved(auth) {
            return Err(Error::Unauthorized);
        }
        self.usdt = Some(usdt);
        Ok(())
    }

    /// Records `token` as the ledger that mints `symbol`, replacing any
    /// earlier one; owner only.
    pub fn set_contract(&mut self, auth: &AuthContext, symbol: &String, token: AccountId) -> (r: Result<(), Error>)
        ensures
            !old(self).owner_approves(auth) <==> r == Err::<(), Error>(Error::Unauthorized),
            old(self).owner_approves(auth) <==> r is Ok,
            r is Err ==> *final(self) == *old(self),
            r is Ok ==> {
                &&& forall|s: Seq<char>| #[trigger] final(self).contract_spec(s)
                    == if s == symbol@ { Some(token) } else { old(self).contract_spec(s) }
                &&& final(self).owner_spec() == old(self).owner_spec()
                &&& final(self).address_spec() == old(self).address_spec()
                &&& final(self).oracle_spec() == old(self).oracle_spec()
                &&& final(self).usdt_spec() == old(self).usdt_spec()
            },
    {
        if !self.owner_is_approved(auth) {
            return Err(Error::Unauthorized);
        }
        self.contracts.insert(symbol, token);
        Ok(())
    }

    /// The outcome of `transfer_ownership`: how its result and the state after it relate to the state before.
    pub open spec fn transfer_ownership_post(pre: &Self, post: &Self, auth: &AuthContext, new_owner: AccountId, r: Result<(), Error>) -> bool {
        &&& (!pre.owner_approves(auth) <==> r == Err::<(), Error>(Error::Unauthorized))
        &&& (pre.owner_approves(auth) <==> r is Ok)
        &&& (r is Err ==> *post == *pre)
        &&& (r is Ok ==> post.owner_spec() == Some(new_owner) && post.same_but_owner(pre))
    }

    /// Hands the exchange to `new_owner`; owner only.
    pub fn transfer_ownership(&mut self, auth: &AuthContext, new_owner: AccountId) -> (r: Result<(), Error>)
        ensures
            Self::transfer_ownership_post(old(self), final(self), auth, new_owner, r),
    {
        if !self.owner_is_approved(auth) {
            return Err(Error::Unauthorized);
        }
        self.owner = Some(new_owner);
        Ok(())
    }

    /// The exchange's own account.
    pub fn address(&self) -> (r: AccountId)
        ensures
            r == self.address_spec(),
    {
        self.address
    }

    /// The current owner; none before construction.
    pub fn owner(&self) -> (r: Option<AccountId>)
        ensures
            r == self.owner_spec(),
    {
        self.owner
    }

    /// The configured price registry.
    pub fn oracle_contract(&self) -> (r: Option<AccountId>)
        ensures
            r == self.oracle_spec(),
    {
        self.oracle
    }

    /// The configured reference-asset ledger.
    pub fn usdt_contract(&self) -> (r: Option<AccountId>)
        ensures
            r == self.usdt_spec(),
    {
        self.usdt
    }

    /// The token ledger configured for `symbol`.
    pub fn contract(&self, symbol: &String) -> (r: Option<AccountId>)
        ensures
            r == self.contract_spec(symbol@),
    {
        self.contracts.get(symbol)
    }

    /// What a purchase by `user` of `symbol` for `amount` reference-asset
    /// units comes to, given the collaborators' states: the number of tokens
    /// minted, or the first failing step's error.
    pub open spec fn mint_outcome(
        &self,
        auth: &AuthContext,
        user: AccountId,
        symbol: Seq<char>,
        amount: i128,
        usdt: &EnerTrade,
        oracle: &OracleContract,
        token: &EnerTrade,
    ) -> Result<int, Error> {
        if !auth.signed_by(user) {
            Err(Error::Unauthorized)
        } else if self.usdt_spec() is None || amount < 0 || usdt.balance_spec(user) < amount {
            Err(Error::PaymentFailed)
        } else if self.contract_spec(symbol) is None {
            Err(Error::TokenNotConfigured)
        } else if self.oracle_spec() is None || oracle.price_spec(symbol) is None {
            Err(Error::PriceUnavailable)
        } else if oracle.price_spec(symbol).unwrap().price <= 0 {
            Err(Error::InvalidPrice)
        } else if token.minter_spec() != Some(self.address_spec()) {
            Err(Error::Unauthorized)
        } else if token.supply_spec() + (amount as int) / (oracle.price_spec(symbol).unwrap().price as int) > i128::MAX {
            Err(Error::ArithmeticOverflow)
        } else {
            Ok((amount as int) / (oracle.price_spec(symbol).unwrap().price as int))
        }
    }

    /// Sells `symbol` tokens to `user` for `usdt_amount` reference-asset
    /// units: pulls the payment from `user` into the exchange's account on
    /// `usdt`, reads the price of `symbol` from `oracle`, and mints
    /// `usdt_amount / price` tokens (rounded down) to `user` on `token`, as
    /// the exchange, which must be that ledger's minter. `usdt`, `oracle` and
    /// `token` are the components at the addresses that the exchange has
    /// configured. The whole purchase happens or none of it: on failure no
    /// balance changes.
    pub fn mint_with_usdt(
        &self,
        auth: &AuthContext,
        user: AccountId,
        symbol: &String,
        usdt_amount: i128,
        usdt: &mut EnerTrade,
        oracle: &OracleContract,
        token: &mut EnerTrade,
    ) -> (r: Result<MintedTokens, Error>)
        requires
            old(usdt).wf(),
            old(token).wf(),
        ensures
            final(usdt).wf(),
            final(token).wf(),
            match self.mint_outcome(auth, user, symbol@, usdt_amount, old(usdt), oracle, old(token)) {
                Err(e) => {
                    &&& r == Err::<MintedTokens, Error>(e)
                    &&& *final(usdt) == *old(usdt)
                    &&& *final(token) == *old(token)
                },
                Ok(minted) => {
                    &&& r matches Ok(event) && event.user == user && event.amount_paid == usdt_amount
                        && event.tokens_minted == minted
                    &&& final(usdt).supply_spec() == old(usdt).supply_spec()
                    &&& forall|a: AccountId| #[trigger] final(usdt).balance_spec(a)
                        == old(usdt).balance_spec(a) - (if a == user { usdt_amount as int } else { 0 })
                            + (if a == self.address_spec() { usdt_amount as int } else { 0 })
                    &&& final(token).supply_spec() == old(token).supply_spec() + minted
                    &&& forall|a: AccountId| #[trigger] final(token).balance_spec(a)
                        == if a == user { old(token).balance_spec(a) + minted } else { old(token).balance_spec(a) }
                    &&& final(usdt).owner_spec() == old(usdt).owner_spec()
                    &&& final(usdt).minter_spec() == old(usdt).minter_spec()
                    &&& final(token).owner_spec() == old(token).owner_spec()
                    &&& final(token).minter_spec() == old(token).minter_spec()
                },
            },
    {
        if !auth.has_proof(user) {
            return Err(Error::Unauthorized);
        }
        if self.usdt.is_none() || usdt_amount < 0 || usdt.balance(user) < usdt_amount {
            return Err(Error::PaymentFailed);
        }
        if self.contracts.get(symbol).is_none() {
            return Err(Error::TokenNotConfigured);
        }
        if self.oracle.is_none() {
            return Err(Error::PriceUnavailable);
        }
        let record = match oracle.get_price(symbol) {
            Ok(record) => record,
            Err(_) => return Err(Error::PriceUnavailable),
        };
        let tokens = match tokens_for_payment(usdt_amount, record.price) {
            Ok(t) => t,
            Err(e) => return Err(e),
        };
        let minter_auth = AuthContext::signed(self.address);
        if !token.minter_is_approved(&minter_auth) {
            return Err(Error::Unauthorized);
        }
        if token.total_supply().checked_add(tokens).is_none() {
            return Err(Error::ArithmeticOverflow);
        }
        let paid = usdt.transfer(auth, user, self.address, usdt_amount);
        let minted = token.mint(&minter_auth, user, tokens);
        assert(paid is Ok && minted is Ok);
        Ok(MintedTokens { user, amount_paid: usdt_amount, tokens_minted: tokens })
    }
}

} // verus!
