//! A signing identity for submitting authenticated transactions to a
//! Zenchain-style ledger.
//!
//! The crate resolves secret material from a literal seed string or the
//! contents of a file, derives an ECDSA key pair and the ledger's 20-byte
//! account identifier from it, and exposes a signing capability whose
//! outputs match the wire types the ledger's protocol expects.

mod chain;
mod error;
mod signer;

pub use chain::{AccountId20, ChainTypes, H256, MultiAddress, MultiSignature, PublicKey, ZenchainConfig};
pub use error::{Error, SeedError};
pub use signer::{
    account_of_public, decoded_utf8, decompressed_of, ecdsa_signature_of, keccak256_of,
    lemma_account_determined_by_public, lemma_address_round_trip, lemma_create_deterministic,
    parses_compressed, path_candidate, public_of_seed, seed_bytes_accepted, spec_hex_seed_phrase,
    spec_hex_val, spec_is_hex_digit, spec_is_word_byte, spec_seed_bytes, trimmed, PairSigner,
    ReadOutcome, Signer,
};
