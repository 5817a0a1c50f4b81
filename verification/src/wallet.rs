//! The wallet file: the account's public key in the clear, and its keypair
//! encrypted under a key that is derived from a password.
//!
//! The file holds, in this order: the number of its format in two bytes;
//! the public key in binary; twelve bytes of initialisation vector; eight
//! bytes of salt and the number of rounds in four bytes, from which and the
//! password the key is derived; sixteen bytes of authentication tag; and
//! the encrypted keypair, which is the rest. Numbers have their least
//! significant byte first.

use crate::keypair::binary_key;
use crate::keypair::PublicKey;
use crate::keypair::KEY_LENGTH;
use crate::little_endian::from_le_bytes;
use crate::little_endian::le_value;
use crate::little_endian::lemma_le_value_bound;
use crate::little_endian::lemma_pow256_widths;
use crate::result::Error;
use vstd::prelude::*;
use vstd::slice::slice_subrange;
use vstd::slice::slice_to_vec;

verus! {

/// The number of the one format that there is.
pub const FORMAT_BASIC: u16 = 1;

/// The length of the initialisation vector.
pub const IV_LENGTH: usize = 12;

/// The length of the salt.
pub const SALT_LENGTH: usize = 8;

/// The length of the authentication tag.
pub const TAG_LENGTH: usize = 16;

/// Where the public key begins.
pub const KEY_START: usize = 2;

/// Where the initialisation vector begins.
pub const IV_START: usize = 35;

/// Where the salt begins.
pub const SALT_START: usize = 47;

/// Where the number of rounds begins.
pub const ROUNDS_START: usize = 55;

/// Where the authentication tag begins.
pub const TAG_START: usize = 59;

/// Where the encrypted keypair begins.
pub const ENCRYPTED_START: usize = 75;

/// What a wallet file holds.
#[derive(Debug, PartialEq, Eq)]
pub struct Wallet {
    pub public_key: PublicKey,
    pub iv: Vec<u8>,
    pub salt: Vec<u8>,
    pub rounds: u32,
    pub tag: Vec<u8>,
    pub encrypted: Vec<u8>,
}

/// What a wallet file holds, as a mathematical value.
pub struct WalletView {
    pub public_key: Seq<u8>,
    pub iv: Seq<u8>,
    pub salt: Seq<u8>,
    pub rounds: u32,
    pub tag: Seq<u8>,
    pub encrypted: Seq<u8>,
}

impl View for Wallet {
    type V = WalletView;

    open spec fn view(&self) -> WalletView {
        WalletView {
            public_key: self.public_key@,
            iv: self.iv@,
            salt: self.salt@,
            rounds: self.rounds,
            tag: self.tag@,
            encrypted: self.encrypted@,
        }
    }
}

/// What the bytes of a wallet file hold, or why they are no wallet file:
/// they are too short to tell their format, or of a format that is not
/// known, or too short for what comes before the encrypted keypair, or
/// their public key is not well formed.
pub open spec fn wallet_of(bytes: Seq<u8>) -> Result<WalletView, Error> {
    if bytes.len() < KEY_START {
        Err(Error::WalletLength)
    } else if le_value(bytes.subrange(0, KEY_START as int)) != FORMAT_BASIC {
        Err(Error::WalletFormat)
    } else if bytes.len() < ENCRYPTED_START {
        Err(Error::WalletLength)
    } else {
        match binary_key(bytes.subrange(KEY_START as int, IV_START as int)) {
            Err(e) => Err(e),
            Ok(public_key) => Ok(
                WalletView {
                    public_key,
                    iv: bytes.subrange(IV_START as int, SALT_START as int),
                    salt: bytes.subrange(SALT_START as int, ROUNDS_START as int),
                    rounds: le_value(bytes.subrange(ROUNDS_START as int, TAG_START as int)) as u32,
                    tag: bytes.subrange(TAG_START as int, ENCRYPTED_START as int),
                    encrypted: bytes.subrange(ENCRYPTED_START as int, bytes.len() as int),
                },
            ),
        }
    }
}

/// The view of a result that holds a wallet.
pub open spec fn wallet_result(r: Result<Wallet, Error>) -> Result<WalletView, Error> {
    match r {
        Ok(wallet) => Ok(wallet@),
        Err(e) => Err(e),
    }
}

impl Wallet {
    /// Reads the bytes of a wallet file.
    pub fn read(bytes: &[u8]) -> (wallet: Result<Wallet, Error>)
        ensures
            wallet_result(wallet) == wallet_of(bytes@),
    {
        let n: usize = bytes.len();
        if n < KEY_START {
            return Err(Error::WalletLength);
        }
        proof {
            lemma_pow256_widths();
            lemma_le_value_bound(bytes@.subrange(0, KEY_START as int));
        }
        let format: u64 = from_le_bytes(slice_subrange(bytes, 0, KEY_START));
        if format != FORMAT_BASIC as u64 {
            return Err(Error::WalletFormat);
        }
        if n < ENCRYPTED_START {
            return Err(Error::WalletLength);
        }
        let public_key = match PublicKey::from_bytes(slice_subrange(bytes, KEY_START, IV_START)) {
            Ok(key) => key,
            Err(e) => {
                return Err(e);
            },
        };
        proof {
            lemma_le_value_bound(bytes@.subrange(ROUNDS_START as int, TAG_START as int));
        }
        let rounds: u64 = from_le_bytes(slice_subrange(bytes, ROUNDS_START, TAG_START));
        Ok(
            Wallet {
                public_key,
                iv: slice_to_vec(slice_subrange(bytes, IV_START, SALT_START)),
                salt: slice_to_vec(slice_subrange(bytes, SALT_START, ROUNDS_START)),
                rounds: rounds as u32,
                tag: slice_to_vec(slice_subrange(bytes, TAG_START, ENCRYPTED_START)),
                encrypted: slice_to_vec(slice_subrange(bytes, ENCRYPTED_START, n)),
            },
        )
    }
}

} // verus!
