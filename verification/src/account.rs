//! The account model a multi-signature check runs against: a threshold, a
//! signer-weight table, and a directory resolving account public keys to
//! accounts.

use vstd::prelude::*;

use crate::public_types::U256;
use crate::public_types::u256_eq;

verus! {

/// One configured signer of an account and its weight toward thresholds.
#[derive(Clone, Copy, Debug)]
pub struct AccountSigner {
    pub public_key: U256,
    pub weight: u32,
}

/// An account: the key it is resolved by, the minimum cumulative signer
/// weight it requires at medium security, and its signer-weight table.
#[derive(Clone, Debug)]
pub struct Account {
    pub public_key: U256,
    pub medium_threshold: u32,
    pub signers: Vec<AccountSigner>,
}

/// The weight a signer table gives a public key: the weight of its first
/// entry, or zero for a key the account does not know.
pub open spec fn weight_in(signers: Seq<AccountSigner>, pk: Seq<u8>) -> u32
    decreases signers.len(),
{
    if signers.len() == 0 {
        0
    } else if signers[0].public_key@ == pk {
        signers[0].weight
    } else {
        weight_in(signers.skip(1), pk)
    }
}

impl Account {
    /// Looks up the weight this account gives a signer: zero for a key it
    /// does not know.
    pub fn signer_weight(&self, pk: &U256) -> (r: u32)
        ensures
            r == weight_in(self.signers@, pk@),
    {
        proof {
            assert(self.signers@.skip(0) =~= self.signers@);
        }
        let mut j: usize = 0;
        while j < self.signers.len()
            invariant
                j <= self.signers.len(),
                weight_in(self.signers@, pk@) == weight_in(self.signers@.skip(j as int), pk@),
            decreases self.signers.len() - j,
        {
            proof {
                assert(self.signers@.skip(j as int)[0] == self.signers@[j as int]);
            }
            if u256_eq(&self.signers[j].public_key, pk) {
                return self.signers[j].weight;
            }
            proof {
                assert(self.signers@.skip(j as int).skip(1) =~= self.signers@.skip(j + 1));
            }
            j = j + 1;
        }
        proof {
            assert(self.signers@.skip(self.signers@.len() as int).len() == 0);
        }
        0
    }
}

/// The account a directory resolves a public key to: its first entry with
/// that key, if any.
pub open spec fn resolve_spec(entries: Seq<Account>, pk: Seq<u8>) -> Option<Account>
    decreases entries.len(),
{
    if entries.len() == 0 {
        None
    } else if entries[0].public_key@ == pk {
        Some(entries[0])
    } else {
        resolve_spec(entries.skip(1), pk)
    }
}

/// The directory of known accounts, resolved by account public key.
#[derive(Clone, Debug)]
pub struct AccountDirectory {
    pub entries: Vec<Account>,
}

impl View for AccountDirectory {
    type V = Seq<Account>;

    open spec fn view(&self) -> Seq<Account> {
        self.entries@
    }
}

impl AccountDirectory {
    /// An empty directory: no public key resolves.
    pub fn new() -> (r: AccountDirectory)
        ensures
            forall|pk: Seq<u8>| resolve_spec(r@, pk) is None,
            r@.len() == 0,
    {
        AccountDirectory { entries: Vec::new() }
    }

    /// Finds the entry a public key resolves to.
    pub fn find_account(&self, pk: &U256) -> (r: Option<usize>)
        ensures
            match r {
                Some(i) => i < self@.len() && resolve_spec(self@, pk@) == Some(self@[i as int]),
                None => resolve_spec(self@, pk@) is None,
            },
    {
        proof {
            assert(self@.skip(0) =~= self@);
        }
        let mut i: usize = 0;
        while i < self.entries.len()
            invariant
                i <= self.entries.len(),
                resolve_spec(self@, pk@) == resolve_spec(self@.skip(i as int), pk@),
            decreases self.entries.len() - i,
        {
            proof {
                assert(self@.skip(i as int)[0] == self@[i as int]);
            }
            if u256_eq(&self.entries[i].public_key, pk) {
                return Some(i);
            }
            proof {
                assert(self@.skip(i as int).skip(1) =~= self@.skip(i + 1));
            }
            i = i + 1;
        }
        proof {
            assert(self@.skip(self@.len() as int).len() == 0);
        }
        None
    }

    /// Reads the medium threshold of the account at an index.
    pub fn threshold_at(&self, i: usize) -> (r: u32)
        requires
            i < self@.len(),
        ensures
            r == self@[i as int].medium_threshold,
    {
        self.entries[i].medium_threshold
    }

    /// Looks up a signer's weight on the account at an index.
    pub fn signer_weight_at(&self, i: usize, pk: &U256) -> (r: u32)
        requires
            i < self@.len(),
        ensures
            r == weight_in(self@[i as int].signers@, pk@),
    {
        self.entries[i].signer_weight(pk)
    }

    /// Adds an account at the end of the directory.  A public key that
    /// already resolves keeps resolving to its first entry, so adding
    /// cannot re-bind an existing account.
    pub fn add_account(&mut self, account: Account)
        ensures
            final(self)@ == old(self)@.push(account),
    {
        self.entries.push(account);
    }
}

} // verus!
