use vstd::prelude::*;

verus! {

/// Why a seed string could not be turned into a key pair.
///
/// Mirrors, variant for variant, the secret-string errors reported by the
/// key-derivation scheme, so that a construction failure keeps its
/// underlying cause.
#[derive(Clone, Debug, PartialEq, Eq)]
pub enum SeedError {
    /// The overall format of the secret string was invalid.
    InvalidFormat(String),
    /// The phrase was not a valid BIP-39 phrase.
    InvalidPhrase,
    /// The supplied password was invalid.
    InvalidPassword,
    /// The seed bytes were invalid.
    InvalidSeed,
    /// The seed had an invalid length.
    InvalidSeedLength,
    /// The derivation path was invalid.
    InvalidPath,
}

/// The error taxonomy shared by the client.
///
/// Identity construction produces only `Io`, `Crypto` and `Other`; the
/// remaining variants belong to the surrounding submission logic and are
/// kept as siblings so callers can propagate every failure uniformly.
#[derive(Clone, Debug, PartialEq, Eq)]
pub enum Error {
    /// Reading the candidate seed file failed for a reason other than the
    /// file being absent.
    Io(String),
    /// A failure reported by the RPC transport.
    RpcError(String),
    /// A failure reported by the chain-client layer.
    Subxt(String),
    /// The resolved secret material could not be parsed into a key pair.
    Crypto(SeedError),
    /// The ledger is in a phase that does not accept the operation.
    IncorrectPhase,
    /// The submission was already submitted.
    AlreadySubmitted,
    /// The account does not exist.
    AccountDoesNotExists,
    /// A submission with a better score already exists.
    BetterScoreExist,
    /// The connected chain is not one the client supports.
    InvalidChain(String),
    /// Any other failure, described in text; seed-file contents that are
    /// not valid UTF-8 are reported here.
    Other(String),
}

} // verus!
