use vstd::prelude::*;
use vstd::string::StringSliceAdditionalSpecFns;
use vstd::utf8::encode_utf8;

use crate::chain::{AccountId20, MultiAddress, MultiSignature, PublicKey};
use crate::error::{Error, SeedError};

verus! {

/// What probing the candidate seed file produced. The caller performs
/// the one file read of identity construction and hands its outcome in
/// as a plain value.
#[derive(Clone, Debug, PartialEq, Eq)]
pub enum ReadOutcome {
    /// The file exists and these are its bytes.
    Found(Vec<u8>),
    /// There is no file at the candidate path.
    Missing,
    /// The file could not be read for a reason other than absence,
    /// described in text.
    Failed(String),
}

/// The key-pair type of the ledger's ECDSA scheme, kept opaque: the
/// library touches it only through the trusted items below.
#[verifier::external_type_specification]
#[verifier::external_body]
#[verifier::reject_recursive_types(PUBLIC)]
pub struct ExGenericPair<PUBLIC>(sp_core::ecdsa::GenericPair<PUBLIC>);

/// The byte-array carrier behind the scheme's public-key and signature
/// types; opaque here.
#[verifier::external_type_specification]
#[verifier::external_body]
#[verifier::reject_recursive_types(T)]
pub struct ExCryptoBytes<const N: usize, T>(sp_core::crypto_bytes::CryptoBytes<N, T>);

/// Marker tag of public-key byte arrays; opaque here.
#[verifier::external_type_specification]
#[verifier::external_body]
pub struct ExPublicTag(sp_core::crypto_bytes::PublicTag);

/// Marker tag of the ECDSA scheme; opaque here.
#[verifier::external_type_specification]
#[verifier::external_body]
pub struct ExEcdsaTag(sp_core::ecdsa::EcdsaTag);

/// Relies on the derived `Clone` of the scheme's key-pair type, only
/// so identities can be cloned; nothing is assumed of the copy.
pub assume_specification<PUBLIC>[ <sp_core::ecdsa::GenericPair<PUBLIC> as core::clone::Clone>::clone ](
    pair: &sp_core::ecdsa::GenericPair<PUBLIC>,
) -> sp_core::ecdsa::GenericPair<PUBLIC>
    where
        PUBLIC: core::clone::Clone,
;

/// The string with surrounding whitespace removed, as `str::trim`
/// computes it.
pub uninterp spec fn trimmed(s: Seq<char>) -> Seq<char>;

/// Relies on `str::trim`: the result is the input without leading and
/// trailing whitespace, a function of the characters alone, and is
/// itself unchanged by a further trim.
#[verifier::external_body]
fn trim_str(s: &str) -> (r: String)
    ensures
        r@ == trimmed(s@),
        trimmed(r@) == r@,
{
    s.trim().to_string()
}

/// The candidate seed-file path for an input string: the input trimmed
/// of surrounding whitespace. A caller of [`Signer::new`] probes this
/// path and hands the outcome of the read in.
pub fn path_candidate(seed_or_path: &str) -> (r: String)
    ensures
        r@ == trimmed(seed_or_path@),
        trimmed(r@) == r@,
{
    trim_str(seed_or_path)
}

/// The characters of `b` decoded as UTF-8, or `None` where `b` is not
/// valid UTF-8.
pub uninterp spec fn decoded_utf8(b: Seq<u8>) -> Option<Seq<char>>;

/// Relies on `String::from_utf8`: decoding succeeds exactly on valid
/// UTF-8 input and is a function of the bytes alone; on failure the
/// error's description is handed back.
#[verifier::external_body]
fn utf8_decode(b: Vec<u8>) -> (r: Result<String, String>)
    ensures
        r is Ok <==> decoded_utf8(b@) is Some,
        r matches Ok(s) ==> Some(s@) == decoded_utf8(b@),
{
    match String::from_utf8(b) {
        Ok(s) => Ok(s),
        Err(e) => Err(format!("{}", e)),
    }
}

/// Whether a byte is an ASCII hexadecimal digit.
pub open spec fn spec_is_hex_digit(b: u8) -> bool {
    (48 <= b && b <= 57) || (97 <= b && b <= 102) || (65 <= b && b <= 70)
}

/// The value of an ASCII hexadecimal digit.
pub open spec fn spec_hex_val(b: u8) -> u8
    recommends
        spec_is_hex_digit(b),
{
    if 48 <= b && b <= 57 {
        (b - 48) as u8
    } else if 97 <= b && b <= 102 {
        (b - 87) as u8
    } else if 65 <= b && b <= 70 {
        (b - 55) as u8
    } else {
        0
    }
}

/// Whether a byte continues a secret-string phrase: the ASCII digits,
/// letters, underscore and space that the scheme's grammar admits in a
/// phrase (a non-ASCII byte never makes the guard below stand down, so
/// over-approximation is on the safe side).
pub open spec fn spec_is_word_byte(b: u8) -> bool {
    (48 <= b && b <= 57) || (65 <= b && b <= 90) || (97 <= b && b <= 122) || b == 95 || b == 32
}

/// Whether the UTF-8 bytes of a seed string open with the scheme's hex
/// fast path: a phrase that is exactly `0x` followed by 64 hexadecimal
/// digits (so the parser will feed the decoded 32 bytes straight to
/// secret-key construction).
pub open spec fn spec_hex_seed_phrase(b: Seq<u8>) -> bool {
    &&& b.len() >= 66
    &&& b[0] == 48
    &&& b[1] == 120
    &&& forall|i: int| 2 <= i < 66 ==> spec_is_hex_digit(#[trigger] b[i])
    &&& (b.len() == 66 || !spec_is_word_byte(b[66]))
}

/// The 32 bytes a hex fast-path phrase decodes to.
pub open spec fn spec_seed_bytes(b: Seq<u8>) -> Seq<u8> {
    Seq::new(32, |k: int| (16 * spec_hex_val(b[2 + 2 * k]) + spec_hex_val(b[3 + 2 * k])) as u8)
}

/// Whether 32 bytes are accepted as an ECDSA secret key by the
/// scheme's key construction (nonzero and below the secp256k1 group
/// order).
pub uninterp spec fn seed_bytes_accepted(b: Seq<u8>) -> bool;

/// Relies on `sp_core::ecdsa::Pair::from_seed_slice`, which — unlike
/// the secret-string parser's hex fast path — rejects an out-of-range
/// scalar with an error instead of a panic; acceptance is a function
/// of the bytes alone.
#[verifier::external_body]
fn pair_from_seed_bytes(b: &[u8; 32]) -> (r: Option<sp_core::ecdsa::Pair>)
    ensures
        r is Some <==> seed_bytes_accepted(b@),
{
    <sp_core::ecdsa::Pair as sp_core::Pair>::from_seed_slice(&b[..]).ok()
}

/// Reports whether a hex digit stands at `b`.
fn is_hex_digit(b: u8) -> (r: bool)
    ensures
        r == spec_is_hex_digit(b),
{
    (48 <= b && b <= 57) || (97 <= b && b <= 102) || (65 <= b && b <= 70)
}

/// The value of a hex digit.
fn hex_val(b: u8) -> (r: u8)
    requires
        spec_is_hex_digit(b),
    ensures
        r == spec_hex_val(b),
        r <= 15,
{
    if 48 <= b && b <= 57 {
        b - 48
    } else if 97 <= b && b <= 102 {
        b - 87
    } else {
        b - 55
    }
}

/// Reports whether `b` continues a phrase.
fn is_word_byte(b: u8) -> (r: bool)
    ensures
        r == spec_is_word_byte(b),
{
    (48 <= b && b <= 57) || (65 <= b && b <= 90) || (97 <= b && b <= 122) || b == 95 || b == 32
}

/// Scans a seed string for the scheme's hex fast-path form and, where
/// it is present, decodes the 32 seed bytes.
fn scan_hex_seed(s: &str) -> (r: Option<[u8; 32]>)
    ensures
        r is Some <==> spec_hex_seed_phrase(s.spec_bytes()),
        r matches Some(b) ==> b@ == spec_seed_bytes(s.spec_bytes()),
{
    let bytes: &[u8] = s.as_bytes();
    if bytes.len() < 66 {
        return None;
    }
    if !(bytes[0] == 48 && bytes[1] == 120) {
        return None;
    }
    if bytes.len() > 66 && is_word_byte(bytes[66]) {
        return None;
    }
    let mut out: [u8; 32] = [0u8; 32];
    let mut k: usize = 0;
    while k < 32
        invariant
            k <= 32,
            bytes@ == s.spec_bytes(),
            bytes@.len() >= 66,
            forall|i: int| 2 <= i < 2 + 2 * k ==> spec_is_hex_digit(#[trigger] bytes@[i]),
            forall|j: int| 0 <= j < k ==> out@[j] == spec_seed_bytes(bytes@)[j],
        decreases 32 - k,
    {
        let hi = bytes[2 + 2 * k];
        let lo = bytes[3 + 2 * k];
        if !is_hex_digit(hi) || !is_hex_digit(lo) {
            return None;
        }
        out[k] = 16 * hex_val(hi) + hex_val(lo);
        k = k + 1;
    }
    proof {
        assert(out@ =~= spec_seed_bytes(s.spec_bytes()));
    }
    Some(out)
}

/// The compressed public key of the key pair the ledger's
/// key-derivation scheme derives from a seed string, or `None` where
/// the string is not well-formed secret material.
pub uninterp spec fn public_of_seed(s: Seq<char>) -> Option<Seq<u8>>;

/// Whether 33 bytes are a SEC1 compressed encoding of a point on the
/// secp256k1 curve.
pub uninterp spec fn parses_compressed(pk: Seq<u8>) -> bool;

/// The 65-byte uncompressed SEC1 encoding of the public key whose
/// compressed encoding is `pk`.
pub uninterp spec fn decompressed_of(pk: Seq<u8>) -> Seq<u8>;

/// The 32-byte Keccak-256 digest of `b`.
pub uninterp spec fn keccak256_of(b: Seq<u8>) -> Seq<u8>;

/// The signature the identity whose compressed public key is `pk`
/// produces over `payload` under the ledger's ECDSA scheme.
pub uninterp spec fn ecdsa_signature_of(pk: Seq<u8>, payload: Seq<u8>) -> Seq<u8>;

/// Relies on `sp_core::ecdsa::Pair::from_string` (with no password
/// override) and `sp_core::Pair::public`: parsing secret material is
/// deterministic in the string alone and succeeds exactly on
/// well-formed material; the pair's 33-byte compressed public key is a
/// serialized point of the secp256k1 curve, which any SEC1 parser
/// accepts. A parse failure is handed back variant for variant.
///
/// The parser's hex fast path panics on a phrase of `0x` and 64 hex
/// digits whose scalar is zero or not below the group order, so the
/// precondition excludes exactly those strings; the caller probes them
/// with `pair_from_seed_bytes` first. (A BIP-39 phrase or a hard
/// junction feeds secret-key construction a digest instead, where an
/// out-of-range scalar has no known preimage.)
#[verifier::external_body]
fn parse_seed(seed: &str) -> (r: Result<(sp_core::ecdsa::Pair, PublicKey), SeedError>)
    requires
        spec_hex_seed_phrase(seed.spec_bytes()) ==> seed_bytes_accepted(
            spec_seed_bytes(seed.spec_bytes()),
        ),
    ensures
        r is Ok <==> public_of_seed(seed@) is Some,
        r matches Ok(p) ==> Some(p.1@) == public_of_seed(seed@) && parses_compressed(p.1@),
{
    match <sp_core::ecdsa::Pair as sp_core::Pair>::from_string(seed, None) {
        Ok(pair) => {
            let public = PublicKey(sp_core::Pair::public(&pair).0);
            Ok((pair, public))
        },
        Err(sp_core::crypto::SecretStringError::InvalidFormat(e)) => Err(SeedError::InvalidFormat(format!("{}", e))),
        Err(sp_core::crypto::SecretStringError::InvalidPhrase) => Err(SeedError::InvalidPhrase),
        Err(sp_core::crypto::SecretStringError::InvalidPassword) => Err(SeedError::InvalidPassword),
        Err(sp_core::crypto::SecretStringError::InvalidSeed) => Err(SeedError::InvalidSeed),
        Err(sp_core::crypto::SecretStringError::InvalidSeedLength) => Err(SeedError::InvalidSeedLength),
        Err(sp_core::crypto::SecretStringError::InvalidPath) => Err(SeedError::InvalidPath),
    }
}

/// Relies on `sp_core::Pair::public`: the cached public key a pair
/// carries is the 33-byte compressed serialization of a point of the
/// secp256k1 curve, which any SEC1 parser accepts.
#[verifier::external_body]
fn pair_public(pair: &sp_core::ecdsa::Pair) -> (r: PublicKey)
    ensures
        parses_compressed(r@),
{
    PublicKey(sp_core::Pair::public(pair).0)
}

/// Relies on `libsecp256k1::PublicKey::parse_compressed` and
/// `libsecp256k1::PublicKey::serialize`: parsing succeeds exactly on a
/// valid compressed encoding, and serializing the parsed point yields
/// its 65-byte uncompressed SEC1 encoding, a function of the input
/// bytes alone.
#[verifier::external_body]
fn decompress_public(pk: &PublicKey) -> (r: Option<[u8; 65]>)
    ensures
        r is Some <==> parses_compressed(pk@),
        r matches Some(b) ==> b@ == decompressed_of(pk@),
{
    match libsecp256k1::PublicKey::parse_compressed(&pk.0) {
        Ok(point) => Some(point.serialize()),
        Err(_) => None,
    }
}

/// Relies on `sp_crypto_hashing::keccak_256`: the 32-byte digest is a
/// function of the input bytes alone.
#[verifier::external_body]
fn keccak_256(b: &[u8]) -> (r: [u8; 32])
    ensures
        r@ == keccak256_of(b@),
{
    sp_crypto_hashing::keccak_256(b)
}

/// The ledger's account-derivation rule: the last 20 bytes of the
/// Keccak-256 digest of the uncompressed public key, its SEC1 prefix
/// byte dropped.
pub open spec fn account_of_public(pk: Seq<u8>) -> Seq<u8> {
    keccak256_of(decompressed_of(pk).subrange(1, 65)).subrange(12, 32)
}

/// Derives the 20-byte account identifier from a compressed public key
/// by the ledger's fixed rule.
fn derive_account_id(public: &PublicKey) -> (r: AccountId20)
    requires
        parses_compressed(public@),
    ensures
        r@ == account_of_public(public@),
{
    let full: [u8; 65] = decompress_public(public).unwrap();
    let body: &[u8] = vstd::slice::slice_subrange(full.as_slice(), 1, 65);
    let digest: [u8; 32] = keccak_256(body);
    let tail: &[u8] = vstd::slice::slice_subrange(digest.as_slice(), 12, 32);
    let mut out: [u8; 20] = [0u8; 20];
    let mut i: usize = 0;
    while i < 20
        invariant
            i <= 20,
            tail@.len() == 20,
            tail@ == account_of_public(public@),
            forall|j: int| 0 <= j < i ==> out@[j] == tail@[j],
        decreases 20 - i,
    {
        out[i] = tail[i];
        i = i + 1;
    }
    proof {
        assert(out@ =~= tail@);
    }
    AccountId20(out)
}

/// A signing identity constructed from an already-derived key pair: the
/// pair itself together with its public key and the account identifier
/// the ledger's rule assigns to it, both cached at construction.
#[derive(Clone)]
pub struct PairSigner {
    account_id: AccountId20,
    public: PublicKey,
    signer: sp_core::ecdsa::Pair,
}

impl PairSigner {
    /// The key pair the identity signs with.
    pub closed spec fn spec_pair(&self) -> sp_core::ecdsa::Pair {
        self.signer
    }

    /// The cached compressed public key, as bytes.
    pub closed spec fn spec_public(&self) -> Seq<u8> {
        self.public@
    }

    /// The cached account identifier.
    pub closed spec fn spec_account_id(&self) -> AccountId20 {
        self.account_id
    }

    /// Well-formedness: the cached public key is a valid compressed
    /// curve point and the cached account identifier is exactly the one
    /// the ledger's rule derives from it.
    pub open spec fn wf(&self) -> bool {
        &&& parses_compressed(self.spec_public())
        &&& self.spec_account_id()@ == account_of_public(self.spec_public())
    }

    /// Builds the identity around a pair whose public key is already
    /// extracted; the account identifier is derived and cached here.
    fn from_parts(signer: sp_core::ecdsa::Pair, public: PublicKey) -> (r: Self)
        requires
            parses_compressed(public@),
        ensures
            r.spec_pair() == signer,
            r.spec_public() == public@,
            r.wf(),
    {
        let account_id = derive_account_id(&public);
        PairSigner { account_id, public, signer }
    }

    /// Creates a signing identity from a key pair: the pair itself is
    /// stored unchanged, and the cached account identifier is derived
    /// from the pair's public key by the ledger's rule.
    pub fn new(signer: sp_core::ecdsa::Pair) -> (r: Self)
        ensures
            r.spec_pair() == signer,
            r.wf(),
    {
        let public = pair_public(&signer);
        Self::from_parts(signer, public)
    }

    /// Returns the cached account identifier; never fails and never
    /// recomputes.
    pub fn account_id(&self) -> (r: &AccountId20)
        ensures
            *r == self.spec_account_id(),
    {
        &self.account_id
    }

    /// Spec of [`Self::address`]: the identity's account id wrapped in
    /// the direct variant of the address sum type.
    pub open spec fn spec_address(&self) -> MultiAddress {
        MultiAddress::Id(self.spec_account_id())
    }

    /// Returns the identity as the protocol's address sum type; always
    /// the direct account-id variant.
    pub fn address(&self) -> (r: MultiAddress)
        ensures
            r == self.spec_address(),
    {
        MultiAddress::Id(self.account_id)
    }

    /// Signs the exact bytes given and tags the raw signature with the
    /// ECDSA scheme; never fails for a constructed identity.
    pub fn sign(&self, signer_payload: &[u8]) -> (r: MultiSignature)
        ensures
            r matches MultiSignature::Ecdsa(sig) && sig@ == ecdsa_signature_of(
                self.spec_public(),
                signer_payload@,
            ),
    {
        let sig = ecdsa_sign(self, signer_payload);
        MultiSignature::Ecdsa(sig)
    }
}

/// Relies on `sp_core::Pair::sign`: the signature is produced with a
/// deterministic (RFC 6979) nonce over the Blake2-256 hash of the
/// payload, so it is a function of the key pair and the payload alone;
/// a secp256k1 pair is determined by its public key, and the identity's
/// cached public key is the one extracted from this same pair at
/// construction.
#[verifier::external_body]
fn ecdsa_sign(signer: &PairSigner, payload: &[u8]) -> (r: [u8; 65])
    ensures
        r@ == ecdsa_signature_of(signer.spec_public(), payload@),
{
    sp_core::Pair::sign(&signer.signer, payload).0
}

/// A ready signing identity resolved from a seed string or seed file.
#[derive(Clone)]
pub struct Signer(PairSigner);

impl Signer {
    /// The cached compressed public key, as bytes.
    pub closed spec fn spec_public(&self) -> Seq<u8> {
        self.0.spec_public()
    }

    /// The cached account identifier.
    pub closed spec fn spec_account_id(&self) -> AccountId20 {
        self.0.spec_account_id()
    }

    /// Well-formedness of the inner identity.
    pub open spec fn wf(&self) -> bool {
        &&& parses_compressed(self.spec_public())
        &&& self.spec_account_id()@ == account_of_public(self.spec_public())
    }

    /// Spec of [`Self::new`]: the seed string that construction
    /// resolves from its input — the trimmed file contents where the
    /// candidate path was readable, the trimmed input itself where no
    /// file exists, `None` where resolution fails (unreadable file or
    /// contents that are not UTF-8).
    pub open spec fn resolved_seed(input: Seq<char>, read: ReadOutcome) -> Option<Seq<char>> {
        match read {
            ReadOutcome::Found(bytes) => match decoded_utf8(bytes@) {
                Some(text) => Some(trimmed(text)),
                None => None,
            },
            ReadOutcome::Missing => Some(trimmed(input)),
            ReadOutcome::Failed(_) => None,
        }
    }

    /// Whether the ledger's key-derivation scheme accepts a resolved
    /// seed string: a seed in the hex fast-path form must carry an
    /// in-range scalar, and the scheme's parser must derive a key pair
    /// from the string.
    pub open spec fn seed_accepted(s: Seq<char>) -> bool {
        &&& spec_hex_seed_phrase(encode_utf8(s)) ==> seed_bytes_accepted(
            spec_seed_bytes(encode_utf8(s)),
        )
        &&& public_of_seed(s) is Some
    }

    /// Resolves secret material and constructs the identity.
    ///
    /// `seed_or_path` is trimmed of surrounding whitespace and `read`
    /// must be the outcome of probing that trimmed string as a file
    /// path (the caller performs the read). File contents, where found,
    /// always win over the literal string; only a missing file falls
    /// back to the literal seed. Unreadable files are `Io` errors,
    /// non-UTF-8 contents are `Other`, and seed strings the scheme
    /// rejects are `Crypto` — each exactly on the inputs stated in the
    /// postcondition. A seed in the hex fast-path form is probed
    /// through the scheme's own secret-key construction first, so an
    /// out-of-range scalar comes back as a `Crypto` error instead of
    /// reaching the parser's panic on that input.
    pub fn new(seed_or_path: &str, read: ReadOutcome) -> (r: Result<Self, Error>)
        ensures
            r is Ok <==> (Self::resolved_seed(seed_or_path@, read) matches Some(s)
                && Self::seed_accepted(s)),
            r matches Ok(sg) ==> sg.wf() && Some(sg.spec_public()) == public_of_seed(
                Self::resolved_seed(seed_or_path@, read).unwrap(),
            ),
            r matches Err(e) ==> match read {
                ReadOutcome::Found(b) => if decoded_utf8(b@) is None {
                    e is Other
                } else {
                    e is Crypto
                },
                ReadOutcome::Missing => e is Crypto,
                ReadOutcome::Failed(m) => e matches Error::Io(mm) && mm@ == m@,
            },
    {
        let resolved: String = match read {
            ReadOutcome::Found(bytes) => match utf8_decode(bytes) {
                Ok(text) => trim_str(text.as_str()),
                Err(msg) => {
                    return Err(Error::Other(msg));
                },
            },
            ReadOutcome::Missing => trim_str(seed_or_path),
            ReadOutcome::Failed(msg) => {
                return Err(Error::Io(msg));
            },
        };
        if let Some(seed_bytes) = scan_hex_seed(resolved.as_str()) {
            if pair_from_seed_bytes(&seed_bytes).is_none() {
                return Err(Error::Crypto(SeedError::InvalidSeed));
            }
        }
        match parse_seed(resolved.as_str()) {
            Ok((pair, public)) => Ok(Signer(PairSigner::from_parts(pair, public))),
            Err(fault) => Err(Error::Crypto(fault)),
        }
    }

    /// Returns the inner pair-backed identity.
    pub fn pair_signer(&self) -> (r: &PairSigner)
        ensures
            r.spec_public() == self.spec_public(),
            r.spec_account_id() == self.spec_account_id(),
    {
        &self.0
    }

    /// Returns the cached account identifier.
    pub fn account_id(&self) -> (r: &AccountId20)
        ensures
            *r == self.spec_account_id(),
    {
        self.0.account_id()
    }

    /// Returns the identity as the protocol's address sum type.
    pub fn address(&self) -> (r: MultiAddress)
        ensures
            r == MultiAddress::Id(self.spec_account_id()),
    {
        self.0.address()
    }

    /// Signs the exact bytes given; see [`PairSigner::sign`].
    pub fn sign(&self, signer_payload: &[u8]) -> (r: MultiSignature)
        ensures
            r matches MultiSignature::Ecdsa(sig) && sig@ == ecdsa_signature_of(
                self.spec_public(),
                signer_payload@,
            ),
    {
        self.0.sign(signer_payload)
    }
}

/// Law: identity construction is deterministic. Two identities whose
/// construction resolved the same input and read outcome carry the same
/// account identifier.
pub proof fn lemma_create_deterministic(a: Signer, b: Signer, input: Seq<char>, read: ReadOutcome)
    requires
        a.wf(),
        b.wf(),
        Signer::resolved_seed(input, read) is Some,
        Some(a.spec_public()) == public_of_seed(Signer::resolved_seed(input, read).unwrap()),
        Some(b.spec_public()) == public_of_seed(Signer::resolved_seed(input, read).unwrap()),
    ensures
        a.spec_account_id()@ == b.spec_account_id()@,
{
}

/// Law: the address an identity reports round-trips losslessly back to
/// its account identifier through the address sum type's accessor.
pub proof fn lemma_address_round_trip(s: PairSigner)
    ensures
        s.spec_address().spec_as_account_id() == Some(s.spec_account_id()),
{
}

/// Law: the account identifier is a function of the public key alone —
/// two well-formed identities with equal cached public keys carry equal
/// account identifiers, however each was constructed.
pub proof fn lemma_account_determined_by_public(a: PairSigner, b: PairSigner)
    requires
        a.wf(),
        b.wf(),
        a.spec_public() == b.spec_public(),
    ensures
        a.spec_account_id()@ == b.spec_account_id()@,
{
}

} // verus!
