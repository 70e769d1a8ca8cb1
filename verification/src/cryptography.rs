//! The authorization check itself: dispatch over the proof variant,
//! contract-caller passthrough, single-key verification, and the weighted
//! multi-signature account check.

use vstd::prelude::*;

use crate::account::Account;
use crate::account::AccountDirectory;
use crate::account::resolve_spec;
use crate::account::weight_in;
use crate::message::message_v0_bytes;
use crate::message::serialize_v0;
use crate::nonce::NonceStore;
use crate::nonce::nonce_of;
use crate::nonce::read_and_increment_nonce;
use crate::oracle::ed25519_accepts;
use crate::oracle::verify_sig_ed25519;
use crate::public_types::AuthError;
use crate::public_types::KeyedAccountAuthorization;
use crate::public_types::KeyedAuthorization;
use crate::public_types::KeyedEd25519Signature;
use crate::public_types::NonceKey;
use crate::public_types::U256;
use crate::public_types::lemma_lex_lt_asymmetric;
use crate::public_types::lemma_lex_lt_irreflexive;
use crate::public_types::lex_lt;
use crate::public_types::u256_lt;

verus! {

/// Everything an authorization check consults besides the proof itself:
/// the nonce store, the account directory, and the identity of the
/// invoking contract, if a contract invoked us.
#[derive(Clone, Debug)]
pub struct AuthContext {
    pub nonces: NonceStore,
    pub accounts: AccountDirectory,
    pub invoking_contract: Option<U256>,
}

/// The public key bytes of the previously accepted signer, if any.
pub open spec fn opt_key_view(prev: Option<U256>) -> Option<Seq<u8>> {
    match prev {
        Some(p) => Some(p@),
        None => None,
    }
}

/// The outcome of walking a signature list from position `i` with the
/// given previously seen key and accumulated weight: each entry must be
/// strictly greater than its predecessor, then pass the oracle, and its
/// weight then joins the running total; at the end the total must reach
/// the account's medium threshold.  The first violation decides, so a
/// rejected signature stops the walk before any later weight is counted.
pub open spec fn sig_list_outcome(
    acct: Account,
    msg: Seq<u8>,
    sigs: Seq<KeyedEd25519Signature>,
    i: int,
    prev: Option<Seq<u8>>,
    weight: int,
) -> Result<(), AuthError>
    decreases sigs.len() - i,
{
    if i < 0 || i >= sigs.len() {
        if weight >= acct.medium_threshold {
            Ok(())
        } else {
            Err(AuthError::InsufficientWeightError)
        }
    } else if prev matches Some(p) && !lex_lt(p, sigs[i].public_key@) {
        Err(AuthError::OrderingError)
    } else if !ed25519_accepts(sigs[i].public_key@, msg, sigs[i].signature@) {
        Err(AuthError::SignatureInvalid)
    } else {
        sig_list_outcome(
            acct,
            msg,
            sigs,
            i + 1,
            Some(sigs[i].public_key@),
            weight + weight_in(acct.signers@, sigs[i].public_key@),
        )
    }
}

/// The outcome of checking a whole signature list against an account and
/// one shared message.
pub open spec fn account_auth_outcome(
    acct: Account,
    msg: Seq<u8>,
    sigs: Seq<KeyedEd25519Signature>,
) -> Result<(), AuthError> {
    sig_list_outcome(acct, msg, sigs, 0, None, 0)
}

/// What a single-key check returns, as a function of the context it
/// started from: the oracle's verdict on the canonical message built from
/// the consumed nonce, the domain, and the parameters.
pub open spec fn ed25519_check_result(
    pre: AuthContext,
    auth: KeyedEd25519Signature,
    domain: u32,
    parameters: Seq<u8>,
    nonce_key: NonceKey,
) -> Result<(), AuthError> {
    if ed25519_accepts(
        auth.public_key@,
        message_v0_bytes(nonce_of(pre.nonces@, nonce_key.id), domain, parameters),
        auth.signature@,
    ) {
        Ok(())
    } else {
        Err(AuthError::SignatureInvalid)
    }
}

/// What an account check returns, as a function of the context it started
/// from: resolution of the account, then the signature-list walk over the
/// shared canonical message.
pub open spec fn account_check_result(
    pre: AuthContext,
    auth: KeyedAccountAuthorization,
    domain: u32,
    parameters: Seq<u8>,
    nonce_key: NonceKey,
) -> Result<(), AuthError> {
    match resolve_spec(pre.accounts@, auth.public_key@) {
        None => Err(AuthError::ResolutionError),
        Some(acct) => account_auth_outcome(
            acct,
            message_v0_bytes(nonce_of(pre.nonces@, nonce_key.id), domain, parameters),
            auth.signatures@,
        ),
    }
}

/// What a contract-caller check returns: a supplied nonce key is a caller
/// error whatever the context holds; otherwise the mere existence of an
/// invoking contract is the proof.
pub open spec fn contract_check_result(
    pre: AuthContext,
    nonce_key: Option<NonceKey>,
) -> Result<(), AuthError> {
    if nonce_key is Some {
        Err(AuthError::ConfigurationError)
    } else if pre.invoking_contract is None {
        Err(AuthError::ResolutionError)
    } else {
        Ok(())
    }
}

/// How a signature-based check changes the context: exactly one nonce is
/// consumed for the supplied identity, every other counter and everything
/// else is left alone.
pub open spec fn signature_check_effect(
    pre: AuthContext,
    post: AuthContext,
    nonce_key: NonceKey,
) -> bool {
    &&& nonce_of(post.nonces@, nonce_key.id) == nonce_of(pre.nonces@, nonce_key.id) + 1
    &&& forall|k: u64| k != nonce_key.id ==> nonce_of(post.nonces@, k) == nonce_of(pre.nonces@, k)
    &&& post.accounts == pre.accounts
    &&& post.invoking_contract == pre.invoking_contract
}

/// Checks a single-key authorization: consume the identity's nonce, build
/// the canonical message, and ask the oracle.  The nonce is consumed even
/// when the oracle rejects; a failed check is not replayable.
pub fn check_ed25519_auth(
    ctx: &mut AuthContext,
    auth: &KeyedEd25519Signature,
    domain: u32,
    parameters: &Vec<u8>,
    nonce_key: NonceKey,
) -> (r: Result<(), AuthError>)
    requires
        nonce_of(old(ctx).nonces@, nonce_key.id) < u64::MAX,
    ensures
        r == ed25519_check_result(*old(ctx), *auth, domain, parameters@, nonce_key),
        signature_check_effect(*old(ctx), *final(ctx), nonce_key),
{
    let nonce = read_and_increment_nonce(&mut ctx.nonces, &nonce_key);
    let msg_bin = serialize_v0(nonce, domain, parameters);
    if verify_sig_ed25519(&auth.public_key, &msg_bin, &auth.signature) {
        Ok(())
    } else {
        Err(AuthError::SignatureInvalid)
    }
}

/// Checks a weighted multi-signature authorization: resolve the account,
/// consume the identity's nonce, build one canonical message shared by all
/// signatures, then walk the list in order.  Keys must be strictly
/// increasing; every signature must pass the oracle; the accumulated
/// weight must reach the account's medium threshold.  Weight accumulation
/// saturates at `u32::MAX`, which cannot change the comparison against a
/// `u32` threshold, so acceptance agrees with the unbounded sum.  A failed
/// resolution consumes no nonce; every later failure does.
#[verifier::loop_isolation(false)]
pub fn check_account_auth(
    ctx: &mut AuthContext,
    auth: &KeyedAccountAuthorization,
    domain: u32,
    parameters: &Vec<u8>,
    nonce_key: NonceKey,
) -> (r: Result<(), AuthError>)
    requires
        resolve_spec(old(ctx).accounts@, auth.public_key@) is Some ==> nonce_of(
            old(ctx).nonces@,
            nonce_key.id,
        ) < u64::MAX,
    ensures
        r == account_check_result(*old(ctx), *auth, domain, parameters@, nonce_key),
        resolve_spec(old(ctx).accounts@, auth.public_key@) is Some ==> signature_check_effect(
            *old(ctx),
            *final(ctx),
            nonce_key,
        ),
        resolve_spec(old(ctx).accounts@, auth.public_key@) is None ==> *final(ctx) == *old(ctx),
{
    let found = ctx.accounts.find_account(&auth.public_key);
    let idx: usize;
    match found {
        None => {
            return Err(AuthError::ResolutionError);
        },
        Some(i) => {
            idx = i;
        },
    }
    let ghost acct = ctx.accounts@[idx as int];

    let nonce = read_and_increment_nonce(&mut ctx.nonces, &nonce_key);
    let msg_bin = serialize_v0(nonce, domain, parameters);
    let ghost msg = message_v0_bytes(nonce, domain, parameters@);

    let threshold = ctx.accounts.threshold_at(idx);
    let mut weight: u32 = 0;
    let ghost mut w_true: int = 0;
    let mut prev_pk: Option<U256> = None;
    let mut i: usize = 0;
    while i < auth.signatures.len()
        invariant
            i <= auth.signatures.len(),
            0 <= w_true,
            weight as int == (if w_true <= u32::MAX as int {
                w_true
            } else {
                u32::MAX as int
            }),
            account_auth_outcome(acct, msg, auth.signatures@) == sig_list_outcome(
                acct,
                msg,
                auth.signatures@,
                i as int,
                opt_key_view(prev_pk),
                w_true,
            ),
        decreases auth.signatures.len() - i,
    {
        let sig = &auth.signatures[i];
        let order_ok: bool = match &prev_pk {
            None => true,
            Some(prev) => u256_lt(prev, &sig.public_key),
        };
        if !order_ok {
            return Err(AuthError::OrderingError);
        }
        if !verify_sig_ed25519(&sig.public_key, &msg_bin, &sig.signature) {
            return Err(AuthError::SignatureInvalid);
        }
        let w = ctx.accounts.signer_weight_at(idx, &sig.public_key);
        weight = if weight > u32::MAX - w {
            u32::MAX
        } else {
            weight + w
        };
        proof {
            w_true = w_true + w;
        }
        prev_pk = Some(sig.public_key);
        i = i + 1;
    }
    if weight < threshold {
        Err(AuthError::InsufficientWeightError)
    } else {
        Ok(())
    }
}

/// The single entry point: dispatches on the proof variant.  A
/// contract-caller proof must come without a nonce key and is accepted on
/// the invoking contract's existence alone; the signature-based proofs
/// must come with one, and are rejected before any nonce is consumed or
/// signature examined when it is missing.
pub fn check_auth(
    ctx: &mut AuthContext,
    auth: &KeyedAuthorization,
    domain: u32,
    parameters: &Vec<u8>,
    nonce_key: Option<NonceKey>,
) -> (r: Result<(), AuthError>)
    requires
        match *auth {
            KeyedAuthorization::Contract => true,
            KeyedAuthorization::Ed25519(_) => nonce_key matches Some(k) ==> nonce_of(
                old(ctx).nonces@,
                k.id,
            ) < u64::MAX,
            KeyedAuthorization::Account(kaa) => nonce_key matches Some(k) ==> (resolve_spec(
                old(ctx).accounts@,
                kaa.public_key@,
            ) is Some ==> nonce_of(old(ctx).nonces@, k.id) < u64::MAX),
        },
    ensures
        match *auth {
            KeyedAuthorization::Contract => {
                &&& *final(ctx) == *old(ctx)
                &&& r == contract_check_result(*old(ctx), nonce_key)
            },
            KeyedAuthorization::Ed25519(kea) => match nonce_key {
                None => {
                    &&& *final(ctx) == *old(ctx)
                    &&& r == Err::<(), AuthError>(AuthError::ConfigurationError)
                },
                Some(k) => {
                    &&& r == ed25519_check_result(*old(ctx), kea, domain, parameters@, k)
                    &&& signature_check_effect(*old(ctx), *final(ctx), k)
                },
            },
            KeyedAuthorization::Account(kaa) => match nonce_key {
                None => {
                    &&& *final(ctx) == *old(ctx)
                    &&& r == Err::<(), AuthError>(AuthError::ConfigurationError)
                },
                Some(k) => {
                    &&& r == account_check_result(*old(ctx), kaa, domain, parameters@, k)
                    &&& resolve_spec(old(ctx).accounts@, kaa.public_key@) is Some
                        ==> signature_check_effect(*old(ctx), *final(ctx), k)
                    &&& resolve_spec(old(ctx).accounts@, kaa.public_key@) is None ==> *final(ctx)
                        == *old(ctx)
                },
            },
        },
{
    match auth {
        KeyedAuthorization::Contract => {
            if nonce_key.is_some() {
                return Err(AuthError::ConfigurationError);
            }
            match &ctx.invoking_contract {
                Some(_) => Ok(()),
                None => Err(AuthError::ResolutionError),
            }
        },
        KeyedAuthorization::Ed25519(kea) => match nonce_key {
            Some(k) => check_ed25519_auth(ctx, kea, domain, parameters, k),
            None => Err(AuthError::ConfigurationError),
        },
        KeyedAuthorization::Account(kaa) => match nonce_key {
            Some(k) => check_account_auth(ctx, kaa, domain, parameters, k),
            None => Err(AuthError::ConfigurationError),
        },
    }
}

/// Two consecutive checks for the same identity consume strictly
/// increasing nonces.  A signature-based check consumes the counter its
/// context holds and leaves the context a check later (`mid`) holds one
/// higher, so the nonce that later check consumes is strictly greater; on
/// a fresh context the first two checks consume 0, then 1.
pub proof fn lemma_nonce_monotonic(pre: AuthContext, mid: AuthContext, nonce_key: NonceKey)
    requires
        signature_check_effect(pre, mid, nonce_key),
    ensures
        nonce_of(mid.nonces@, nonce_key.id) > nonce_of(pre.nonces@, nonce_key.id),
{
}

/// A duplicated or out-of-order key is rejected even when both signatures
/// are individually valid: with two entries whose first passes the oracle
/// and whose second key equals the first or precedes it, the walk ends in
/// the ordering error.
pub proof fn lemma_ordering_rejection(
    acct: Account,
    msg: Seq<u8>,
    sigs: Seq<KeyedEd25519Signature>,
)
    requires
        sigs.len() == 2,
        ed25519_accepts(sigs[0].public_key@, msg, sigs[0].signature@),
        sigs[1].public_key@ == sigs[0].public_key@ || lex_lt(
            sigs[1].public_key@,
            sigs[0].public_key@,
        ),
    ensures
        account_auth_outcome(acct, msg, sigs) == Err::<(), AuthError>(AuthError::OrderingError),
{
    if sigs[1].public_key@ == sigs[0].public_key@ {
        lemma_lex_lt_irreflexive(sigs[0].public_key@);
    } else {
        lemma_lex_lt_asymmetric(sigs[1].public_key@, sigs[0].public_key@);
    }
    assert(!lex_lt(sigs[0].public_key@, sigs[1].public_key@));
    assert(sig_list_outcome(
        acct,
        msg,
        sigs,
        1,
        Some(sigs[0].public_key@),
        weight_in(acct.signers@, sigs[0].public_key@) as int,
    ) == Err::<(), AuthError>(AuthError::OrderingError));
}

/// A rejected signature stops the walk at once: in a three-entry list in
/// strict key order whose first signature is valid and whose second is
/// not, the outcome is the oracle rejection, whatever the third entry or
/// any weight says — the third signer's weight is never counted.
pub proof fn lemma_oracle_rejection_short_circuit(
    acct: Account,
    msg: Seq<u8>,
    sigs: Seq<KeyedEd25519Signature>,
)
    requires
        sigs.len() == 3,
        ed25519_accepts(sigs[0].public_key@, msg, sigs[0].signature@),
        !ed25519_accepts(sigs[1].public_key@, msg, sigs[1].signature@),
        lex_lt(sigs[0].public_key@, sigs[1].public_key@),
    ensures
        account_auth_outcome(acct, msg, sigs) == Err::<(), AuthError>(AuthError::SignatureInvalid),
{
    assert(sig_list_outcome(
        acct,
        msg,
        sigs,
        1,
        Some(sigs[0].public_key@),
        weight_in(acct.signers@, sigs[0].public_key@) as int,
    ) == Err::<(), AuthError>(AuthError::SignatureInvalid));
}

} // verus!
