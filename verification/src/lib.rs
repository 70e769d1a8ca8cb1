//! Multi-scheme authorization checking for contract invocations.
//!
//! An invocation carries an authorization proof: the caller is itself a
//! contract, a single Ed25519 keypair signed the invocation, or a weighted
//! multi-signature account authorized it.  The library builds the canonical
//! replay-protected message, consumes a per-identity nonce, and applies the
//! acceptance policy of each scheme.

mod account;
mod cryptography;
mod message;
mod nonce;
mod oracle;
mod public_types;

pub use account::Account;
pub use account::AccountDirectory;
pub use account::AccountSigner;
pub use account::resolve_spec;
pub use account::weight_in;
pub use cryptography::AuthContext;
pub use cryptography::account_auth_outcome;
pub use cryptography::account_check_result;
pub use cryptography::check_account_auth;
pub use cryptography::check_auth;
pub use cryptography::check_ed25519_auth;
pub use cryptography::contract_check_result;
pub use cryptography::ed25519_check_result;
pub use cryptography::lemma_nonce_monotonic;
pub use cryptography::lemma_oracle_rejection_short_circuit;
pub use cryptography::lemma_ordering_rejection;
pub use cryptography::opt_key_view;
pub use cryptography::sig_list_outcome;
pub use cryptography::signature_check_effect;
pub use message::Message;
pub use message::MessageV0;
pub use message::lemma_message_v0_bytes_injective;
pub use message::message_bytes;
pub use message::message_v0_bytes;
pub use message::serialize_v0;
pub use message::u32_be_bytes;
pub use message::u64_be_bytes;
pub use nonce::NonceStore;
pub use nonce::current_nonce;
pub use nonce::nonce_of;
pub use nonce::read_and_increment_nonce;
pub use oracle::ed25519_accepts;
pub use oracle::verify_sig_ed25519;
pub use public_types::AuthError;
pub use public_types::ContractDataKey;
pub use public_types::KeyedAccountAuthorization;
pub use public_types::KeyedAuthorization;
pub use public_types::KeyedEd25519Signature;
pub use public_types::NonceKey;
pub use public_types::U256;
pub use public_types::U512;
pub use public_types::lemma_lex_lt_asymmetric;
pub use public_types::lemma_lex_lt_irreflexive;
pub use public_types::lex_lt;
pub use public_types::u256_eq;
pub use public_types::u256_lt;
