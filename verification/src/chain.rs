use vstd::prelude::*;

verus! {

/// A fixed-width 32-byte content identifier: the hash type of the ledger.
#[derive(Clone, Copy, Debug, PartialEq, Eq)]
pub struct H256(pub [u8; 32]);

impl View for H256 {
    type V = Seq<u8>;

    open spec fn view(&self) -> Seq<u8> {
        self.0@
    }
}

/// The ledger's fixed-width 20-byte account identifier, derived
/// deterministically from a public key.
#[derive(Clone, Copy, Debug, PartialEq, Eq, Hash)]
pub struct AccountId20(pub [u8; 20]);

impl View for AccountId20 {
    type V = Seq<u8>;

    open spec fn view(&self) -> Seq<u8> {
        self.0@
    }
}

/// A compressed (SEC1, 33-byte) ECDSA public key.
#[derive(Clone, Copy, Debug, PartialEq, Eq)]
pub struct PublicKey(pub [u8; 33]);

impl View for PublicKey {
    type V = Seq<u8>;

    open spec fn view(&self) -> Seq<u8> {
        self.0@
    }
}

/// The protocol's address sum type: how a transaction refers to an
/// account. The signing identity always uses the direct [`AccountId20`]
/// variant; the remaining addressing modes are carried for completeness
/// of the wire format.
#[derive(Clone, Debug, PartialEq, Eq)]
pub enum MultiAddress {
    /// An account id, referenced directly.
    Id(AccountId20),
    /// An index into the ledger's account indices.
    Index(u32),
    /// Raw address bytes.
    Raw(Vec<u8>),
    /// A fixed 32-byte address.
    Address32([u8; 32]),
    /// A fixed 20-byte address.
    Address20([u8; 20]),
}

impl MultiAddress {
    /// The account id this address names directly, if it uses the direct
    /// variant.
    pub open spec fn spec_as_account_id(self) -> Option<AccountId20> {
        match self {
            MultiAddress::Id(a) => Some(a),
            _ => None,
        }
    }

    /// Extracts the account id from a direct address.
    pub fn as_account_id(&self) -> (r: Option<AccountId20>)
        ensures
            r == self.spec_as_account_id(),
    {
        match self {
            MultiAddress::Id(a) => Some(*a),
            _ => None,
        }
    }
}

/// The protocol's signature sum type, tagged by signing scheme. The
/// signing identity always produces the ECDSA variant.
#[derive(Clone, Debug, PartialEq, Eq)]
pub enum MultiSignature {
    /// An Ed25519 signature.
    Ed25519([u8; 64]),
    /// An Sr25519 signature.
    Sr25519([u8; 64]),
    /// An ECDSA/secp256k1 signature with a recovery byte.
    Ecdsa([u8; 65]),
}

/// The chain binding: a compile-time mapping from protocol role to the
/// concrete wire type the target ledger uses. Components that build or
/// decode transactions reference these associated types instead of
/// naming concrete types themselves, so retargeting the client to a
/// ledger with different encodings means changing only the binding.
pub trait ChainTypes {
    /// The ledger's hash type.
    type Hash;
    /// The ledger's account identifier type.
    type AccountId;
    /// The ledger's transaction address type.
    type Address;
    /// The ledger's signature type.
    type Signature;
}

/// The binding in effect for the Zenchain ledger: a type tag carrying
/// the wire types as associated-type metadata. No value of it is ever
/// needed; the one variant only keeps the tag a well-formed datatype.
#[derive(Clone, Copy, Debug, PartialEq, Eq, Hash)]
pub enum ZenchainConfig {
    /// The inert tag value.
    Binding,
}

impl ChainTypes for ZenchainConfig {
    type Hash = H256;
    type AccountId = AccountId20;
    type Address = MultiAddress;
    type Signature = MultiSignature;
}

} // verus!
