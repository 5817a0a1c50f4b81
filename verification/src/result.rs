//! The ways in which a command can fail inside the library. Failures of the
//! wallet file and of the network never enter it: they end the command
//! where they occur.

use vstd::prelude::*;

verus! {

#[derive(Clone, Copy, Debug, PartialEq, Eq, Structural)]
pub enum Error {
    /// A wallet file is too short for what it must hold.
    WalletLength,
    /// A wallet file is of a format that is not known.
    WalletFormat,
    /// An address is not base58check text of version 0.
    KeyEncoding,
    /// A public key has no bytes at all.
    KeyEmpty,
    /// The network half of a key's tag is neither mainnet nor testnet.
    KeyNetwork,
    /// The type half of a key's tag names no key type that the wallet
    /// handles.
    KeyType,
    /// A key's length is not the one its type has.
    KeyLength,
    /// A memo is not base64 text.
    MemoEncoding,
    /// A memo decodes to more than eight bytes.
    MemoLength,
    /// An amount is below zero.
    AmountNegative,
    /// An amount has more decimal places than the token has.
    AmountPrecision,
    /// An amount in the token's smallest unit does not fit in 64 bits.
    AmountOverflow,
    /// The account's nonce cannot be followed by another.
    NonceExhausted,
    /// The fee schedule is incomplete, or charges per unit of payload and
    /// gives the unit as zero bytes.
    FeeSchedule,
    /// The fee does not fit in 64 bits.
    FeeOverflow,
    /// The signer handed back no signature.
    SignatureEmpty,
    /// A status arrived for a transaction that was not to be submitted, or
    /// none for one that was.
    StatusMismatch,
    /// An event arrived that the command was not waiting for.
    UnexpectedEvent,
}

} // verus!
