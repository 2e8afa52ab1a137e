use vstd::hash_set::HashSetWithView;
use vstd::prelude::*;

use crate::auth::{AccountId, AuthContext};
use crate::error::Error;
use crate::table::SymbolTable;

verus! {

broadcast use vstd::std_specs::hash::group_hash_axioms;

/// The latest observation of an asset's price.
#[derive(Debug, Clone, Copy, PartialEq, Eq, Structural)]
pub struct PriceRecord {
    /// Price in reference-asset units; always positive once stored.
    pub price: i128,
    /// When the price was observed.
    pub observed_at: u64,
    /// How long the observation is meant to stay valid.
    pub valid_for: u64,
    /// Sequence number chosen by the feeder.
    pub nonce: i128,
}

/// The audit event of a stored price.
pub struct PriceUpdate {
    pub asset: String,
    pub record: PriceRecord,
}

/// A price registry: an owner, a revocable set of updaters, and the latest
/// price record of each asset.
pub struct OracleContract {
    owner: Option<AccountId>,
    updaters: HashSetWithView<AccountId>,
    prices: SymbolTable<PriceRecord>,
}

impl OracleContract {
    /// The administrator, once initialized.
    pub closed spec fn owner_spec(&self) -> Option<AccountId> {
        self.owner
    }

    /// The accounts allowed to submit prices besides the owner.
    pub closed spec fn updaters_spec(&self) -> Set<AccountId> {
        self.updaters@
    }

    /// The price record stored for `asset`, if any.
    pub closed spec fn price_spec(&self, asset: Seq<char>) -> Option<PriceRecord> {
        self.prices.lookup(asset)
    }

    /// Whether `auth` carries the proof of the current owner.
    pub open spec fn owner_approves(&self, auth: &AuthContext) -> bool {
        match self.owner_spec() {
            Some(o) => auth.signed_by(o),
            None => false,
        }
    }

    /// Whether `caller` may submit prices: the owner or an updater.
    pub open spec fn may_set_price(&self, caller: AccountId) -> bool {
        self.owner_spec() == Some(caller) || self.updaters_spec().contains(caller)
    }

    /// Every price record is as in `other`.
    pub open spec fn same_prices(&self, other: &OracleContract) -> bool {
        forall|a: Seq<char>| #[trigger] self.price_spec(a) == other.price_spec(a)
    }

    /// A registry before initialization: no owner, no updater, no price.
    pub fn new() -> (r: OracleContract)
        ensures
            r.owner_spec() == None::<AccountId>,
            r.updaters_spec() == Set::<AccountId>::empty(),
            forall|a: Seq<char>| #[trigger] r.price_spec(a) == None::<PriceRecord>,
    {
        OracleContract { owner: None, updaters: HashSetWithView::new(), prices: SymbolTable::new() }
    }

    /// The outcome of `init`: how its result and the state after it relate to the state before.
    pub open spec fn init_post(pre: &Self, post: &Self, owner: AccountId, r: Result<(), Error>) -> bool {
        &&& (pre.owner_spec() is Some <==> r == Err::<(), Error>(Error::AlreadyInitialized))
        &&& (pre.owner_spec() is None <==> r is Ok)
        &&& (r is Err ==> *post == *pre)
        &&& (r is Ok ==> {
            &&& post.owner_spec() == Some(owner)
            &&& post.updaters_spec() == pre.updaters_spec()
            &&& post.same_prices(pre)
        })
    }

    /// Sets the owner; fails if the registry was initialized before, and then
    /// changes nothing.
    pub fn init(&mut self, owner: AccountId) -> (r: Result<(), Error>)
        ensures
            Self::init_post(old(self), final(self), owner, r),
    {
        if self.owner.is_some() {
            return Err(Error::AlreadyInitialized);
        }
        self.owner = Some(owner);
        Ok(())
    }

    /// Whether `auth` carries the proof of the current owner.
    fn owner_is_approved(&self, auth: &AuthContext) -> (r: bool)
        ensures
            r == self.owner_approves(auth),
    {
        match self.owner {
            Some(o) => auth.has_proof(o),
            None => false,
        }
    }

    /// Adds `updater` to the updaters; owner only. Adding a member again
    /// changes nothing.
    pub fn authorize_updater(&mut self, auth: &AuthContext, updater: AccountId) -> (r: Result<(), Error>)
        ensures
            !old(self).owner_approves(auth) <==> r == Err::<(), Error>(Error::Unauthorized),
            old(self).owner_approves(auth) <==> r is Ok,
            r is Err ==> *final(self) == *old(self),
            r is Ok ==> {
                &&& final(self).updaters_spec() == old(self).updaters_spec().insert(updater)
                &&& final(self).owner_spec() == old(self).owner_spec()
                &&& final(self).same_prices(old(self))
            },
    {
        if !self.owner_is_approved(auth) {
            return Err(Error::Unauthorized);
        }
        self.updaters.insert(updater);
        Ok(())
    }

    /// Removes `updater` from the updaters; owner only. Removing a
    /// non-member changes nothing.
    pub fn revoke_updater(&mut self, auth: &AuthContext, updater: AccountId) -> (r: Result<(), Error>)
        ensures
            !old(self).owner_approves(auth) <==> r == Err::<(), Error>(Error::Unauthorized),
            old(self).owner_approves(auth) <==> r is Ok,
            r is Err ==> *final(self) == *old(self),
            r is Ok ==> {
                &&& final(self).updaters_spec() == old(self).updaters_spec().remove(updater)
                &&& final(self).owner_spec() == old(self).owner_spec()
                &&& final(self).same_prices(old(self))
            },
    {
        if !self.owner_is_approved(auth) {
            return Err(Error::Unauthorized);
        }
        self.updaters.remove(&updater);
        Ok(())
    }

    /// Whether `addr` is one of the updaters.
    pub fn is_updater(&self, addr: AccountId) -> (r: bool)
        ensures
            r == self.updaters_spec().contains(addr),
    {
        self.updaters.contains(&addr)
    }

    /// The outcome of `set_price`: how its result and the state after it relate to the state before.
    pub open spec fn set_price_post(pre: &Self, post: &Self, auth: &AuthContext, caller: AccountId, asset: &String, price: i128, timestamp: u64, valid_for: u64, nonce: i128, r: Result<PriceUpdate, Error>) -> bool {
        &&& (r matches Err(e) && e == Error::Unauthorized
            <==> !(auth.signed_by(caller) && pre.may_set_price(caller)))
        &&& (r matches Err(e) && e == Error::InvalidPrice
            <==> auth.signed_by(caller) && pre.may_set_price(caller) && price <= 0)
        &&& (r is Ok <==> auth.signed_by(caller) && pre.may_set_price(caller) && price > 0)
        &&& (r is Err ==> *post == *pre)
        &&& (r matches Ok(event) ==> {
            let record = PriceRecord { price, observed_at: timestamp, valid_for, nonce };
            &&& event.asset@ == asset@
            &&& event.record == record
            &&& forall|a: Seq<char>| #[trigger] post.price_spec(a)
                == if a == asset@ { Some(record) } else { pre.price_spec(a) }
            &&& post.owner_spec() == pre.owner_spec()
            &&& post.updaters_spec() == pre.updaters_spec()
        })
    }

    /// Stores the price record of `asset`, replacing the previous one, and
    /// returns the event that records it. `caller` must be the owner or an
    /// updater and carry its proof; the price must be positive.
    pub fn set_price(
        &mut self,
        auth: &AuthContext,
        caller: AccountId,
        asset: &String,
        price: i128,
        timestamp: u64,
        valid_for: u64,
        nonce: i128,
    ) -> (r: Result<PriceUpdate, Error>)
        ensures
            Self::set_price_post(old(self), final(self), auth, caller, asset, price, timestamp, valid_for, nonce, r),
    {
        let permitted = match self.owner {
            Some(o) => o == caller,
            None => false,
        } || self.updaters.contains(&caller);
        if !(auth.has_proof(caller) && permitted) {
            return Err(Error::Unauthorized);
        }
        if price <= 0 {
            return Err(Error::InvalidPrice);
        }
        let record = PriceRecord { price, observed_at: timestamp, valid_for, nonce };
        self.prices.insert(asset, record);
        Ok(PriceUpdate { asset: asset.clone(), record })
    }

    /// What `get_price` returns for `asset`.
    pub open spec fn get_price_spec(&self, asset: Seq<char>) -> Result<PriceRecord, Error> {
        match self.price_spec(asset) {
            Some(record) => Ok(record),
            None => Err(Error::NotFound),
        }
    }

    /// The latest price record of `asset`; `NotFound` if none was ever stored.
    pub fn get_price(&self, asset: &String) -> (r: Result<PriceRecord, Error>)
        ensures
            r == self.get_price_spec(asset@),
    {
        match self.prices.get(asset) {
            Some(record) => Ok(record),
            None => Err(Error::NotFound),
        }
    }

    /// The outcome of `transfer_ownership`: how its result and the state after it relate to the state before.
    pub open spec fn transfer_ownership_post(pre: &Self, post: &Self, auth: &AuthContext, new_owner: AccountId, r: Result<(), Error>) -> bool {
        &&& (!pre.owner_approves(auth) <==> r == Err::<(), Error>(Error::Unauthorized))
        &&& (pre.owner_approves(auth) <==> r is Ok)
        &&& (r is Err ==> *post == *pre)
        &&& (r is Ok ==> {
            &&& post.owner_spec() == Some(new_owner)
            &&& post.updaters_spec() == pre.updaters_spec()
            &&& post.same_prices(pre)
        })
    }

    /// Hands the registry to `new_owner`; owner only. The updaters stay.
    pub fn transfer_ownership(&mut self, auth: &AuthContext, new_owner: AccountId) -> (r: Result<(), Error>)
        ensures
            Self::transfer_ownership_post(old(self), final(self), auth, new_owner, r),
    {
        if !self.owner_is_approved(auth) {
            return Err(Error::Unauthorized);
        }
        self.owner = Some(new_owner);
        Ok(())
    }

    /// The current owner; none before initialization.
    pub fn owner(&self) -> (r: Option<AccountId>)
        ensures
            r == self.owner_spec(),
    {
        self.owner
    }
}

} // verus!
