use ed25519_dalek::Signer;
use ed25519_dalek::SigningKey;

use contract_auth::Account;
use contract_auth::AccountDirectory;
use contract_auth::AccountSigner;
use contract_auth::AuthContext;
use contract_auth::AuthError;
use contract_auth::KeyedAccountAuthorization;
use contract_auth::KeyedAuthorization;
use contract_auth::KeyedEd25519Signature;
use contract_auth::Message;
use contract_auth::MessageV0;
use contract_auth::NonceKey;
use contract_auth::NonceStore;
use contract_auth::U256;
use contract_auth::U512;
use contract_auth::check_auth;
use contract_auth::current_nonce;

const DOMAIN: u32 = 4;
const PARAMS: [u8; 3] = [1, 2, 3];
const NONCE_ID: u64 = 11;

fn fresh_ctx() -> AuthContext {
    AuthContext {
        nonces: NonceStore::new(),
        accounts: AccountDirectory::new(),
        invoking_contract: None,
    }
}

fn keypair(seed: u8) -> (SigningKey, U256) {
    let sk = SigningKey::from_bytes(&[seed; 32]);
    let pk = U256 { bytes: sk.verifying_key().to_bytes() };
    (sk, pk)
}

fn message_bytes(nonce: u64) -> Vec<u8> {
    Message::V0(MessageV0 { nonce, domain: DOMAIN, parameters: PARAMS.to_vec() }).serialize()
}

fn signed(sk: &SigningKey, pk: U256, nonce: u64) -> KeyedEd25519Signature {
    let sig = sk.sign(&message_bytes(nonce));
    KeyedEd25519Signature { public_key: pk, signature: U512 { bytes: sig.to_bytes() } }
}

fn check(ctx: &mut AuthContext, auth: &KeyedAuthorization, key: Option<NonceKey>) -> Result<(), AuthError> {
    check_auth(ctx, auth, DOMAIN, &PARAMS.to_vec(), key)
}

/// Three keypairs sorted by their public-key bytes, so signature lists can
/// be given in strictly increasing key order.
fn sorted_keypairs() -> Vec<(SigningKey, U256)> {
    let mut pairs = vec![keypair(1), keypair(2), keypair(3)];
    pairs.sort_by(|a, b| a.1.bytes.cmp(&b.1.bytes));
    pairs
}

fn account_of(account_key: U256, threshold: u32, signers: Vec<(U256, u32)>) -> Account {
    Account {
        public_key: account_key,
        medium_threshold: threshold,
        signers: signers
            .into_iter()
            .map(|(public_key, weight)| AccountSigner { public_key, weight })
            .collect(),
    }
}

#[test]
fn single_key_accepts_valid_signature() {
    let (sk, pk) = keypair(7);
    let mut ctx = fresh_ctx();
    let auth = KeyedAuthorization::Ed25519(signed(&sk, pk, 0));
    assert_eq!(check(&mut ctx, &auth, Some(NonceKey { id: NONCE_ID })), Ok(()));
    assert_eq!(current_nonce(&ctx.nonces, &NonceKey { id: NONCE_ID }), 1);
}

#[test]
fn single_key_rejects_invalid_signature() {
    let (_, pk) = keypair(7);
    let mut ctx = fresh_ctx();
    let auth = KeyedAuthorization::Ed25519(KeyedEd25519Signature {
        public_key: pk,
        signature: U512 { bytes: [9; 64] },
    });
    assert_eq!(
        check(&mut ctx, &auth, Some(NonceKey { id: NONCE_ID })),
        Err(AuthError::SignatureInvalid),
    );
    // The nonce is consumed even though the oracle rejected.
    assert_eq!(current_nonce(&ctx.nonces, &NonceKey { id: NONCE_ID }), 1);
}

#[test]
fn single_key_rejects_wrong_domain_signature() {
    let (sk, pk) = keypair(7);
    let mut ctx = fresh_ctx();
    let other_domain =
        Message::V0(MessageV0 { nonce: 0, domain: DOMAIN + 1, parameters: PARAMS.to_vec() })
            .serialize();
    let auth = KeyedAuthorization::Ed25519(KeyedEd25519Signature {
        public_key: pk,
        signature: U512 { bytes: sk.sign(&other_domain).to_bytes() },
    });
    assert_eq!(
        check(&mut ctx, &auth, Some(NonceKey { id: NONCE_ID })),
        Err(AuthError::SignatureInvalid),
    );
}

#[test]
fn nonce_monotonicity_two_checks() {
    let (sk, pk) = keypair(7);
    let key = NonceKey { id: NONCE_ID };
    let mut ctx = fresh_ctx();
    assert_eq!(current_nonce(&ctx.nonces, &key), 0);
    let first = KeyedAuthorization::Ed25519(signed(&sk, pk, 0));
    assert_eq!(check(&mut ctx, &first, Some(key)), Ok(()));
    assert_eq!(current_nonce(&ctx.nonces, &key), 1);
    let second = KeyedAuthorization::Ed25519(signed(&sk, pk, 1));
    assert_eq!(check(&mut ctx, &second, Some(key)), Ok(()));
    assert_eq!(current_nonce(&ctx.nonces, &key), 2);
}

#[test]
fn replayed_signature_is_rejected() {
    let (sk, pk) = keypair(7);
    let key = NonceKey { id: NONCE_ID };
    let mut ctx = fresh_ctx();
    let over_nonce_zero = KeyedAuthorization::Ed25519(signed(&sk, pk, 0));
    assert_eq!(check(&mut ctx, &over_nonce_zero, Some(key)), Ok(()));
    // The same signature again now covers a stale nonce.
    assert_eq!(
        check(&mut ctx, &over_nonce_zero, Some(key)),
        Err(AuthError::SignatureInvalid),
    );
}

#[test]
fn contract_caller_with_nonce_key_is_rejected() {
    let mut ctx = fresh_ctx();
    assert_eq!(
        check(&mut ctx, &KeyedAuthorization::Contract, Some(NonceKey { id: NONCE_ID })),
        Err(AuthError::ConfigurationError),
    );
    // The same holds whatever the invocation context says.
    let mut invoked = fresh_ctx();
    invoked.invoking_contract = Some(U256 { bytes: [5; 32] });
    assert_eq!(
        check(&mut invoked, &KeyedAuthorization::Contract, Some(NonceKey { id: NONCE_ID })),
        Err(AuthError::ConfigurationError),
    );
}

#[test]
fn contract_caller_accepted_when_contract_invokes() {
    let mut ctx = fresh_ctx();
    ctx.invoking_contract = Some(U256 { bytes: [5; 32] });
    assert_eq!(check(&mut ctx, &KeyedAuthorization::Contract, None), Ok(()));
}

#[test]
fn contract_caller_rejected_without_invoker() {
    let mut ctx = fresh_ctx();
    assert_eq!(
        check(&mut ctx, &KeyedAuthorization::Contract, None),
        Err(AuthError::ResolutionError),
    );
}

#[test]
fn missing_nonce_key_single_key() {
    let (sk, pk) = keypair(7);
    let mut ctx = fresh_ctx();
    let auth = KeyedAuthorization::Ed25519(signed(&sk, pk, 0));
    assert_eq!(check(&mut ctx, &auth, None), Err(AuthError::ConfigurationError));
    // Rejected before any nonce was consumed or signature checked.
    assert_eq!(current_nonce(&ctx.nonces, &NonceKey { id: NONCE_ID }), 0);
}

#[test]
fn missing_nonce_key_account() {
    let auth = KeyedAuthorization::Account(KeyedAccountAuthorization {
        public_key: U256 { bytes: [1; 32] },
        signatures: vec![],
    });
    let mut ctx = fresh_ctx();
    assert_eq!(check(&mut ctx, &auth, None), Err(AuthError::ConfigurationError));
    assert_eq!(current_nonce(&ctx.nonces, &NonceKey { id: NONCE_ID }), 0);
}

#[test]
fn unknown_account_is_rejected() {
    let mut ctx = fresh_ctx();
    let auth = KeyedAuthorization::Account(KeyedAccountAuthorization {
        public_key: U256 { bytes: [1; 32] },
        signatures: vec![],
    });
    assert_eq!(
        check(&mut ctx, &auth, Some(NonceKey { id: NONCE_ID })),
        Err(AuthError::ResolutionError),
    );
    // A failed resolution consumes no nonce.
    assert_eq!(current_nonce(&ctx.nonces, &NonceKey { id: NONCE_ID }), 0);
}

#[test]
fn account_threshold_met_exactly() {
    let pairs = sorted_keypairs();
    let account_key = U256 { bytes: [1; 32] };
    let mut ctx = fresh_ctx();
    ctx.accounts.add_account(account_of(
        account_key,
        10,
        vec![(pairs[0].1, 5), (pairs[1].1, 5)],
    ));
    let auth = KeyedAuthorization::Account(KeyedAccountAuthorization {
        public_key: account_key,
        signatures: vec![
            signed(&pairs[0].0, pairs[0].1, 0),
            signed(&pairs[1].0, pairs[1].1, 0),
        ],
    });
    assert_eq!(check(&mut ctx, &auth, Some(NonceKey { id: NONCE_ID })), Ok(()));
}

#[test]
fn account_threshold_not_met() {
    let pairs = sorted_keypairs();
    let account_key = U256 { bytes: [1; 32] };
    let mut ctx = fresh_ctx();
    ctx.accounts.add_account(account_of(
        account_key,
        10,
        vec![(pairs[0].1, 5), (pairs[1].1, 5)],
    ));
    let auth = KeyedAuthorization::Account(KeyedAccountAuthorization {
        public_key: account_key,
        signatures: vec![signed(&pairs[0].0, pairs[0].1, 0)],
    });
    assert_eq!(
        check(&mut ctx, &auth, Some(NonceKey { id: NONCE_ID })),
        Err(AuthError::InsufficientWeightError),
    );
}

#[test]
fn account_duplicate_key_is_rejected() {
    let pairs = sorted_keypairs();
    let account_key = U256 { bytes: [1; 32] };
    let mut ctx = fresh_ctx();
    ctx.accounts.add_account(account_of(account_key, 1, vec![(pairs[0].1, 1)]));
    let entry = signed(&pairs[0].0, pairs[0].1, 0);
    let auth = KeyedAuthorization::Account(KeyedAccountAuthorization {
        public_key: account_key,
        signatures: vec![entry, entry],
    });
    assert_eq!(
        check(&mut ctx, &auth, Some(NonceKey { id: NONCE_ID })),
        Err(AuthError::OrderingError),
    );
}

#[test]
fn account_out_of_order_keys_are_rejected() {
    let pairs = sorted_keypairs();
    let account_key = U256 { bytes: [1; 32] };
    let mut ctx = fresh_ctx();
    ctx.accounts.add_account(account_of(
        account_key,
        2,
        vec![(pairs[0].1, 1), (pairs[1].1, 1)],
    ));
    // Both signatures are individually valid; only their order is wrong.
    let auth = KeyedAuthorization::Account(KeyedAccountAuthorization {
        public_key: account_key,
        signatures: vec![
            signed(&pairs[1].0, pairs[1].1, 0),
            signed(&pairs[0].0, pairs[0].1, 0),
        ],
    });
    assert_eq!(
        check(&mut ctx, &auth, Some(NonceKey { id: NONCE_ID })),
        Err(AuthError::OrderingError),
    );
}

#[test]
fn oracle_rejection_short_circuits() {
    let pairs = sorted_keypairs();
    let account_key = U256 { bytes: [1; 32] };
    let mut ctx = fresh_ctx();
    // Only the third signer carries weight: if the walk reached it, the
    // check would pass, so the rejection proves it never got there.
    ctx.accounts.add_account(account_of(
        account_key,
        1,
        vec![(pairs[0].1, 0), (pairs[1].1, 0), (pairs[2].1, 1)],
    ));
    let auth = KeyedAuthorization::Account(KeyedAccountAuthorization {
        public_key: account_key,
        signatures: vec![
            signed(&pairs[0].0, pairs[0].1, 0),
            KeyedEd25519Signature {
                public_key: pairs[1].1,
                signature: U512 { bytes: [9; 64] },
            },
            signed(&pairs[2].0, pairs[2].1, 0),
        ],
    });
    assert_eq!(
        check(&mut ctx, &auth, Some(NonceKey { id: NONCE_ID })),
        Err(AuthError::SignatureInvalid),
    );
    // The nonce was still consumed.
    assert_eq!(current_nonce(&ctx.nonces, &NonceKey { id: NONCE_ID }), 1);
}

#[test]
fn unknown_signer_has_weight_zero() {
    let pairs = sorted_keypairs();
    let account_key = U256 { bytes: [1; 32] };
    let mut ctx = fresh_ctx();
    // The account knows no signers at all.
    ctx.accounts.add_account(account_of(account_key, 1, vec![]));
    let auth = KeyedAuthorization::Account(KeyedAccountAuthorization {
        public_key: account_key,
        signatures: vec![signed(&pairs[0].0, pairs[0].1, 0)],
    });
    assert_eq!(
        check(&mut ctx, &auth, Some(NonceKey { id: NONCE_ID })),
        Err(AuthError::InsufficientWeightError),
    );
}

#[test]
fn account_signatures_share_one_message() {
    // Both signers sign the same nonce-0 message: one nonce is consumed
    // for the whole check, not one per signer.
    let pairs = sorted_keypairs();
    let account_key = U256 { bytes: [1; 32] };
    let mut ctx = fresh_ctx();
    ctx.accounts.add_account(account_of(
        account_key,
        2,
        vec![(pairs[0].1, 1), (pairs[1].1, 1)],
    ));
    let auth = KeyedAuthorization::Account(KeyedAccountAuthorization {
        public_key: account_key,
        signatures: vec![
            signed(&pairs[0].0, pairs[0].1, 0),
            signed(&pairs[1].0, pairs[1].1, 0),
        ],
    });
    assert_eq!(check(&mut ctx, &auth, Some(NonceKey { id: NONCE_ID })), Ok(()));
    assert_eq!(current_nonce(&ctx.nonces, &NonceKey { id: NONCE_ID }), 1);
}
