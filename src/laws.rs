//! Properties that relate several calls of the components' entrypoints,
//! stated over the outcomes that the entrypoints' contracts give.
use vstd::prelude::*;

use crate::auth::{AccountId, AuthContext};
use crate::error::Error;
use crate::marketplace::AmbarMarketplace;
use crate::oracle::{OracleContract, PriceRecord, PriceUpdate};
use crate::token::EnerTrade;

verus! {

/// A positive price stored by the owner or an updater with its proof is
/// stored, and reading it back gives exactly the stored price, observation
/// time, validity and nonce.
pub proof fn lemma_get_price_after_set_price(
    pre: &OracleContract,
    post: &OracleContract,
    auth: &AuthContext,
    caller: AccountId,
    asset: &String,
    price: i128,
    timestamp: u64,
    valid_for: u64,
    nonce: i128,
    r: Result<PriceUpdate, Error>,
)
    requires
        OracleContract::set_price_post(pre, post, auth, caller, asset, price, timestamp, valid_for, nonce, r),
        auth.signed_by(caller),
        pre.may_set_price(caller),
        price > 0,
    ensures
        r is Ok,
        post.get_price_spec(asset@)
            == Ok::<PriceRecord, Error>(PriceRecord { price, observed_at: timestamp, valid_for, nonce }),
{
    assert(post.price_spec(asset@) == Some(PriceRecord { price, observed_at: timestamp, valid_for, nonce }));
}

/// Two successful mints to one account add up: its balance and the total
/// supply grow by the sum of the two amounts.
pub proof fn lemma_mints_accumulate(
    s0: &EnerTrade,
    s1: &EnerTrade,
    s2: &EnerTrade,
    auth1: &AuthContext,
    auth2: &AuthContext,
    account: AccountId,
    n1: i128,
    n2: i128,
)
    requires
        EnerTrade::mint_post(s0, s1, auth1, account, n1, Ok(())),
        EnerTrade::mint_post(s1, s2, auth2, account, n2, Ok(())),
    ensures
        s2.balance_spec(account) == s0.balance_spec(account) + n1 + n2,
        s2.supply_spec() == s0.supply_spec() + n1 + n2,
        forall|a: AccountId| a != account ==> #[trigger] s2.balance_spec(a) == s0.balance_spec(a),
{
    assert(s1.balance_spec(account) == s0.balance_spec(account) + n1);
    assert(s2.balance_spec(account) == s1.balance_spec(account) + n2);
    assert forall|a: AccountId| a != account implies #[trigger] s2.balance_spec(a) == s0.balance_spec(a) by {
        assert(s1.balance_spec(a) == s0.balance_spec(a));
    }
}

/// A second construction of a token ledger fails with `AlreadyInitialized`
/// and keeps the owner that the first one set.
pub proof fn lemma_token_constructed_once(
    s0: &EnerTrade,
    s1: &EnerTrade,
    s2: &EnerTrade,
    first: AccountId,
    second: AccountId,
    r1: Result<(), Error>,
    r2: Result<(), Error>,
)
    requires
        EnerTrade::construct_post(s0, s1, first, r1),
        EnerTrade::construct_post(s1, s2, second, r2),
    ensures
        r2 == Err::<(), Error>(Error::AlreadyInitialized),
        s2.owner_spec() == s1.owner_spec(),
        r1 is Ok ==> s2.owner_spec() == Some(first),
{
}

/// A second initialization of a price registry fails with
/// `AlreadyInitialized` and keeps the owner that the first one set.
pub proof fn lemma_oracle_initialized_once(
    s0: &OracleContract,
    s1: &OracleContract,
    s2: &OracleContract,
    first: AccountId,
    second: AccountId,
    r1: Result<(), Error>,
    r2: Result<(), Error>,
)
    requires
        OracleContract::init_post(s0, s1, first, r1),
        OracleContract::init_post(s1, s2, second, r2),
    ensures
        r2 == Err::<(), Error>(Error::AlreadyInitialized),
        s2.owner_spec() == s1.owner_spec(),
        r1 is Ok ==> s2.owner_spec() == Some(first),
{
}

/// A second construction of an exchange fails with `AlreadyInitialized` and
/// keeps the owner that the first one set.
pub proof fn lemma_marketplace_constructed_once(
    s0: &AmbarMarketplace,
    s1: &AmbarMarketplace,
    s2: &AmbarMarketplace,
    first: AccountId,
    second: AccountId,
    r1: Result<(), Error>,
    r2: Result<(), Error>,
)
    requires
        AmbarMarketplace::construct_post(s0, s1, first, r1),
        AmbarMarketplace::construct_post(s1, s2, second, r2),
    ensures
        r2 == Err::<(), Error>(Error::AlreadyInitialized),
        s2.owner_spec() == s1.owner_spec(),
        r1 is Ok ==> s2.owner_spec() == Some(first),
{
}

/// Right after a token ledger changes hands, an owner-gated operation passes
/// exactly for transactions that carry the new owner's proof; a transaction
/// that carries only the previous owner's proof is refused.
pub proof fn lemma_token_ownership_moves(
    pre: &EnerTrade,
    post: &EnerTrade,
    auth: &AuthContext,
    new_owner: AccountId,
)
    requires
        EnerTrade::transfer_ownership_post(pre, post, auth, new_owner, Ok(())),
    ensures
        forall|a: AuthContext| #[trigger] post.owner_approves(&a) <==> a.signed_by(new_owner),
{
}

/// Right after a price registry changes hands, an owner-gated operation
/// passes exactly for transactions that carry the new owner's proof.
pub proof fn lemma_oracle_ownership_moves(
    pre: &OracleContract,
    post: &OracleContract,
    auth: &AuthContext,
    new_owner: AccountId,
)
    requires
        OracleContract::transfer_ownership_post(pre, post, auth, new_owner, Ok(())),
    ensures
        forall|a: AuthContext| #[trigger] post.owner_approves(&a) <==> a.signed_by(new_owner),
{
}

/// Right after an exchange changes hands, an owner-gated operation passes
/// exactly for transactions that carry the new owner's proof.
pub proof fn lemma_marketplace_ownership_moves(
    pre: &AmbarMarketplace,
    post: &AmbarMarketplace,
    auth: &AuthContext,
    new_owner: AccountId,
)
    requires
        AmbarMarketplace::transfer_ownership_post(pre, post, auth, new_owner, Ok(())),
    ensures
        forall|a: AuthContext| #[trigger] post.owner_approves(&a) <==> a.signed_by(new_owner),
{
}

} // verus!
