//! Client-side construction of wallet transactions: a record is built from
//! the command's inputs, priced against the network's fee schedule, signed,
//! optionally submitted, and reported. The library makes every decision of
//! that sequence. Decrypting the wallet, encoding the record for the wire,
//! talking to the network and producing the signature are left to its
//! caller.

pub mod amount;
pub mod base64;
pub mod cmd;
pub mod fee;
pub mod keypair;
pub mod little_endian;
pub mod memo;
pub mod result;
pub mod text;
pub mod txn;
pub mod wallet;
