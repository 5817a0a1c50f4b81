//! Public keys of accounts. In binary a key is a tag byte and the key
//! material: the tag's high half names the network, its low half the key
//! type. The wallet handles keys of two types, compact ECC keys and Ed25519
//! keys, both of 32 bytes. As text a key is an address: the base58check
//! form, under version 0, of the binary key.

use crate::result::Error;
use vstd::prelude::*;
use vstd::slice::slice_subrange;
use vstd::slice::slice_to_vec;

verus! {

/// The length of a binary key of either supported type: the tag and 32
/// bytes of key material.
pub const KEY_LENGTH: usize = 33;

/// The version byte that an address carries in front of the key.
pub const ADDRESS_VERSION: u8 = 0;

/// The network that a key belongs to.
#[derive(Clone, Copy, Debug, PartialEq, Eq, Structural)]
pub enum Network {
    MainNet,
    TestNet,
}

/// The types of key that the wallet handles.
#[derive(Clone, Copy, Debug, PartialEq, Eq, Structural)]
pub enum KeyType {
    EccCompact,
    Ed25519,
}

/// What is wrong with a binary key, if anything: checked in the order
/// emptiness, network, key type, length.
pub open spec fn key_error(bytes: Seq<u8>) -> Option<Error> {
    if bytes.len() == 0 {
        Some(Error::KeyEmpty)
    } else if bytes[0] / 16 > 1 {
        Some(Error::KeyNetwork)
    } else if bytes[0] % 16 > 1 {
        Some(Error::KeyType)
    } else if bytes.len() != KEY_LENGTH {
        Some(Error::KeyLength)
    } else {
        None
    }
}

/// A well-formed binary key, or what is wrong with it.
pub open spec fn binary_key(bytes: Seq<u8>) -> Result<Seq<u8>, Error> {
    match key_error(bytes) {
        Some(e) => Err(e),
        None => Ok(bytes),
    }
}

/// The payload that `bs58` finds in `text` when it decodes it with a
/// checksum and expects `version` as the first byte: the version byte and
/// what follows it, without the checksum. `None` where `bs58` refuses the
/// text.
pub uninterp spec fn b58check_decoded(text: Seq<char>, version: u8) -> Option<Seq<u8>>;

/// The text that `bs58` makes of `data` and its checksum.
pub uninterp spec fn b58check_encoded(data: Seq<u8>) -> Seq<char>;

/// `bs58::decode` with `with_check(Some(version))`, collected by
/// `into_vec`. Whatever error `bs58` gives becomes `None`.
#[verifier::external_body]
fn b58check_decode(text: &str, version: u8) -> (data: Option<Vec<u8>>)
    ensures
        data matches Some(d) ==> b58check_decoded(text@, version) == Some(d@),
        data is None ==> b58check_decoded(text@, version) is None,
{
    bs58::decode(text).with_check(Some(version)).into_vec().ok()
}

/// `bs58::encode` with `with_check()`, collected by `into_string`.
#[verifier::external_body]
fn b58check_encode(data: &[u8]) -> (text: String)
    ensures
        text@ == b58check_encoded(data@),
{
    bs58::encode(data).with_check().into_string()
}

/// The binary key in the payload of an address, or why there is none: the
/// payload is the version byte and then the key.
pub open spec fn payload_key(data: Seq<u8>) -> Result<Seq<u8>, Error> {
    if data.len() == 0 {
        Err(Error::KeyEncoding)
    } else {
        binary_key(data.skip(1))
    }
}

/// The binary key that an address holds, or why it holds none.
pub open spec fn address_key(text: Seq<char>) -> Result<Seq<u8>, Error> {
    match b58check_decoded(text, ADDRESS_VERSION) {
        None => Err(Error::KeyEncoding),
        Some(data) => payload_key(data),
    }
}

/// The payload of a key's address.
pub open spec fn key_payload(bytes: Seq<u8>) -> Seq<u8> {
    seq![ADDRESS_VERSION] + bytes
}

/// The address of a binary key.
pub open spec fn key_address(bytes: Seq<u8>) -> Seq<char> {
    b58check_encoded(key_payload(bytes))
}

/// The view of a result that holds a key.
pub open spec fn key_result(r: Result<PublicKey, Error>) -> Result<Seq<u8>, Error> {
    match r {
        Ok(key) => Ok(key@),
        Err(e) => Err(e),
    }
}

/// A public key that has passed `key_error`.
#[derive(Debug, PartialEq, Eq)]
pub struct PublicKey {
    bytes: Vec<u8>,
}

impl View for PublicKey {
    type V = Seq<u8>;

    closed spec fn view(&self) -> Seq<u8> {
        self.bytes@
    }
}

impl PublicKey {
    #[verifier::type_invariant]
    pub open spec fn well_formed(&self) -> bool {
        key_error(self@) is None
    }

    /// Takes a key in binary.
    pub fn from_bytes(bytes: &[u8]) -> (key: Result<PublicKey, Error>)
        ensures
            match key {
                Ok(k) => key_error(bytes@) is None && k@ == bytes@,
                Err(e) => key_error(bytes@) == Some(e),
            },
            key_result(key) == binary_key(bytes@),
    {
        if bytes.len() == 0 {
            return Err(Error::KeyEmpty);
        }
        let tag: u8 = bytes[0];
        if tag / 16 > 1 {
            return Err(Error::KeyNetwork);
        }
        if tag % 16 > 1 {
            return Err(Error::KeyType);
        }
        if bytes.len() != KEY_LENGTH {
            return Err(Error::KeyLength);
        }
        Ok(PublicKey { bytes: slice_to_vec(bytes) })
    }

    /// Takes the payload of an address: the version byte, then the key.
    pub fn from_payload(data: &[u8]) -> (key: Result<PublicKey, Error>)
        ensures
            key_result(key) == payload_key(data@),
    {
        if data.len() == 0 {
            return Err(Error::KeyEncoding);
        }
        let body: &[u8] = slice_subrange(data, 1, data.len());
        PublicKey::from_bytes(body)
    }

    /// Reads an address. The text is refused where it is not base58check
    /// of version 0, and where what it holds is no well-formed key.
    pub fn from_b58(text: &str) -> (key: Result<PublicKey, Error>)
        ensures
            key_result(key) == address_key(text@),
    {
        match b58check_decode(text, ADDRESS_VERSION) {
            None => Err(Error::KeyEncoding),
            Some(data) => PublicKey::from_payload(data.as_slice()),
        }
    }

    /// The key in binary.
    pub fn to_vec(&self) -> (bytes: Vec<u8>)
        ensures
            bytes@ == self@,
            key_error(bytes@) is None,
    {
        proof {
            use_type_invariant(self);
        }
        slice_to_vec(self.bytes.as_slice())
    }

    /// The payload of the key's address: the version byte, then the key.
    pub fn to_payload(&self) -> (data: Vec<u8>)
        ensures
            data@ == key_payload(self@),
    {
        let mut data: Vec<u8> = Vec::new();
        data.push(ADDRESS_VERSION);
        let mut i: usize = 0;
        while i < self.bytes.len()
            invariant
                i <= self.bytes@.len(),
                data@ == seq![ADDRESS_VERSION] + self.bytes@.take(i as int),
            decreases self.bytes@.len() - i,
        {
            data.push(self.bytes[i]);
            i = i + 1;
        }
        data
    }

    /// The key's address.
    pub fn to_b58(&self) -> (text: String)
        ensures
            text@ == key_address(self@),
    {
        let data = self.to_payload();
        b58check_encode(data.as_slice())
    }

    /// The network that the key belongs to.
    pub fn network(&self) -> (network: Network)
        ensures
            network == (if self@[0] / 16 == 0 {
                Network::MainNet
            } else {
                Network::TestNet
            }),
    {
        proof {
            use_type_invariant(self);
        }
        if self.bytes[0] / 16 == 0 {
            Network::MainNet
        } else {
            Network::TestNet
        }
    }

    /// The kind of key.
    pub fn key_type(&self) -> (key_type: KeyType)
        ensures
            key_type == (if self@[0] % 16 == 0 {
                KeyType::EccCompact
            } else {
                KeyType::Ed25519
            }),
    {
        proof {
            use_type_invariant(self);
        }
        if self.bytes[0] % 16 == 0 {
            KeyType::EccCompact
        } else {
            KeyType::Ed25519
        }
    }
}

} // verus!
