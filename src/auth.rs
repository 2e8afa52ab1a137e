use vstd::prelude::*;

verus! {

/// Account identifier on the ledger.
pub type AccountId = u64;

/// The authorization proofs carried by the current transaction: the accounts
/// that approved it.
pub struct AuthContext {
    signers: Vec<AccountId>,
}

impl AuthContext {
    /// The accounts that approved the transaction.
    pub closed spec fn signers(&self) -> Seq<AccountId> {
        self.signers@
    }

    /// Whether the transaction carries a proof from `account`.
    pub open spec fn signed_by(&self, account: AccountId) -> bool {
        self.signers().contains(account)
    }

    /// A transaction approved by no account.
    pub fn anonymous() -> (r: AuthContext)
        ensures
            forall|a: AccountId| !r.signed_by(a),
    {
        AuthContext { signers: Vec::new() }
    }

    /// A transaction approved by `account` alone.
    pub fn signed(account: AccountId) -> (r: AuthContext)
        ensures
            forall|a: AccountId| r.signed_by(a) <==> a == account,
    {
        let mut signers: Vec<AccountId> = Vec::new();
        signers.push(account);
        proof {
            assert(signers@ =~= seq![account]);
            assert forall|a: AccountId| signers@.contains(a) <==> a == account by {
                if a == account {
                    assert(signers@[0] == a);
                }
            }
        }
        AuthContext { signers }
    }

    /// Adds the proof of `account` to the transaction.
    pub fn add_signer(&mut self, account: AccountId)
        ensures
            forall|a: AccountId| final(self).signed_by(a) <==> (old(self).signed_by(a) || a == account),
    {
        self.signers.push(account);
        proof {
            assert forall|a: AccountId| self.signers@.contains(a) <==> (old(self).signers@.contains(a) || a == account) by {
                if old(self).signers@.contains(a) {
                    let i = choose|i: int| 0 <= i < old(self).signers@.len() && old(self).signers@[i] == a;
                    assert(self.signers@[i] == a);
                }
                if a == account {
                    assert(self.signers@[self.signers@.len() - 1] == a);
                }
                if self.signers@.contains(a) && a != account {
                    let i = choose|i: int| 0 <= i < self.signers@.len() && self.signers@[i] == a;
                    assert(old(self).signers@[i] == a);
                }
            }
        }
    }

    /// Whether the transaction carries a proof from `account`.
    pub fn has_proof(&self, account: AccountId) -> (r: bool)
        ensures
            r == self.signed_by(account),
    {
        let mut i: usize = 0;
        while i < self.signers.len()
            invariant
                i <= self.signers@.len(),
                forall|j: int| 0 <= j < i ==> self.signers@[j] != account,
            decreases self.signers@.len() - i,
        {
            if self.signers[i] == account {
                return true;
            }
            i = i + 1;
        }
        false
    }
}

} // verus!
