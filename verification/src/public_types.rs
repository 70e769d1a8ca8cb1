//! The value types an authorization check is made of: raw key and signature
//! bytes, the nonce identity token, the proof variants, and the error
//! taxonomy.

use vstd::prelude::*;

verus! {

/// A 256-bit value, used for Ed25519 public keys and contract identifiers.
#[derive(Clone, Copy, Debug, PartialEq, Eq)]
pub struct U256 {
    pub bytes: [u8; 32],
}

impl View for U256 {
    type V = Seq<u8>;

    open spec fn view(&self) -> Seq<u8> {
        self.bytes@
    }
}

/// A 512-bit value, used for Ed25519 signatures.
#[derive(Clone, Copy, Debug, PartialEq, Eq)]
pub struct U512 {
    pub bytes: [u8; 64],
}

impl View for U512 {
    type V = Seq<u8>;

    open spec fn view(&self) -> Seq<u8> {
        self.bytes@
    }
}

/// Marker for types that can serve as contract-data keys, in particular as
/// nonce identity tokens.
pub trait ContractDataKey: Clone {
}

/// An identity token locating one signer's replay counter in the nonce store.
/// Two distinct signer identities within one domain must use distinct `id`s.
#[derive(Clone, Copy, Debug, PartialEq, Eq)]
pub struct NonceKey {
    pub id: u64,
}

impl ContractDataKey for NonceKey {
}

/// One signer's contribution to a check: the key that allegedly signed and
/// the signature to verify.
#[derive(Clone, Copy, Debug)]
pub struct KeyedEd25519Signature {
    pub public_key: U256,
    pub signature: U512,
}

/// A weighted multi-signature authorization: the account being debited and
/// the signature list, which must be strictly increasing by public key.
#[derive(Clone, Debug)]
pub struct KeyedAccountAuthorization {
    pub public_key: U256,
    pub signatures: Vec<KeyedEd25519Signature>,
}

/// The caller-supplied authorization proof, dispatched on by `check_auth`.
#[derive(Clone, Debug)]
pub enum KeyedAuthorization {
    /// The invocation's caller is itself a contract.
    Contract,
    /// A single keypair signed the invocation.
    Ed25519(KeyedEd25519Signature),
    /// A multi-signature account authorized the invocation.
    Account(KeyedAccountAuthorization),
}

/// Why an authorization check was rejected.  Every rejection is fatal to the
/// invocation; nothing is retried internally.
#[derive(Clone, Copy, Debug, PartialEq, Eq)]
pub enum AuthError {
    /// The caller misused the interface: a nonce key was supplied for a
    /// contract-caller proof, or was missing for a signature-based proof.
    ConfigurationError,
    /// An entity the proof refers to could not be resolved: the claimed
    /// account, or the invoking contract.
    ResolutionError,
    /// The multi-signature list was not strictly increasing by public key
    /// (which also rejects duplicate keys).
    OrderingError,
    /// The accumulated signer weight fell short of the account's threshold.
    InsufficientWeightError,
    /// The signature oracle rejected a signature.
    SignatureInvalid,
}

/// Strict lexicographic order on byte sequences: `a` comes before `b`.
pub open spec fn lex_lt(a: Seq<u8>, b: Seq<u8>) -> bool
    decreases a.len(),
{
    if a.len() == 0 || b.len() == 0 {
        false
    } else if a[0] < b[0] {
        true
    } else if a[0] > b[0] {
        false
    } else {
        lex_lt(a.skip(1), b.skip(1))
    }
}

/// No byte sequence comes before itself.
pub proof fn lemma_lex_lt_irreflexive(a: Seq<u8>)
    ensures
        !lex_lt(a, a),
    decreases a.len(),
{
    if a.len() != 0 {
        lemma_lex_lt_irreflexive(a.skip(1));
    }
}

/// The order is asymmetric: if `a` comes before `b`, `b` does not come
/// before `a`.
pub proof fn lemma_lex_lt_asymmetric(a: Seq<u8>, b: Seq<u8>)
    ensures
        lex_lt(a, b) ==> !lex_lt(b, a),
    decreases a.len(),
{
    if a.len() != 0 && b.len() != 0 && a[0] == b[0] {
        lemma_lex_lt_asymmetric(a.skip(1), b.skip(1));
    }
}

/// Compares two 256-bit values in lexicographic byte order.
pub fn u256_lt(a: &U256, b: &U256) -> (r: bool)
    ensures
        r == lex_lt(a@, b@),
{
    proof {
        assert(a@.skip(0) =~= a@);
        assert(b@.skip(0) =~= b@);
    }
    let mut i: usize = 0;
    while i < 32
        invariant
            i <= 32,
            forall|j: int| 0 <= j < i ==> a@[j] == b@[j],
            lex_lt(a@, b@) == lex_lt(a@.skip(i as int), b@.skip(i as int)),
        decreases 32 - i,
    {
        proof {
            assert(a@.skip(i as int)[0] == a@[i as int]);
            assert(b@.skip(i as int)[0] == b@[i as int]);
        }
        if a.bytes[i] < b.bytes[i] {
            return true;
        }
        if a.bytes[i] > b.bytes[i] {
            return false;
        }
        proof {
            assert(a@.skip(i as int).skip(1) =~= a@.skip(i + 1));
            assert(b@.skip(i as int).skip(1) =~= b@.skip(i + 1));
        }
        i = i + 1;
    }
    proof {
        assert(a@.skip(32).len() == 0);
    }
    false
}

/// Tests two 256-bit values for byte-wise equality.
pub fn u256_eq(a: &U256, b: &U256) -> (r: bool)
    ensures
        r == (a@ == b@),
{
    let mut i: usize = 0;
    while i < 32
        invariant
            i <= 32,
            forall|j: int| 0 <= j < i ==> a@[j] == b@[j],
        decreases 32 - i,
    {
        if a.bytes[i] != b.bytes[i] {
            return false;
        }
        i = i + 1;
    }
    proof {
        assert(a@ =~= b@);
    }
    true
}

} // verus!
