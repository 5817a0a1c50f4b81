//! The memo of a burn: a 64-bit number that the payee may read. As text it
//! is the base64 form of the number's eight bytes, least significant byte
//! first. A text of fewer bytes stands for the number whose missing high
//! bytes are zero.

use crate::base64::decode;
use crate::base64::decoded;
use crate::base64::encode;
use crate::base64::encoded;
use crate::base64::lemma_decode_encode;
use crate::little_endian::from_le_bytes;
use crate::little_endian::le_bytes;
use crate::little_endian::le_value;
use crate::little_endian::lemma_le_value_fits;
use crate::little_endian::lemma_le_value_of_le_bytes;
use crate::little_endian::lemma_pow256_widths;
use crate::little_endian::to_le_bytes;
use crate::result::Error;
use vstd::prelude::*;

verus! {

/// The number of bytes in a memo.
pub const MEMO_LENGTH: usize = 8;

/// The memo of a burn that names none.
pub const DEFAULT_MEMO: u64 = 0;

/// The text of a memo.
pub open spec fn memo_text(memo: u64) -> Seq<char> {
    encoded(le_bytes(memo as nat, MEMO_LENGTH as nat))
}

/// The memo that a text stands for, or why it stands for none.
pub open spec fn text_memo(text: Seq<char>) -> Result<u64, Error> {
    match decoded(text) {
        None => Err(Error::MemoEncoding),
        Some(bytes) => if bytes.len() > MEMO_LENGTH {
            Err(Error::MemoLength)
        } else {
            Ok(le_value(bytes) as u64)
        },
    }
}

/// The memo of a command that was given `text`, or none.
pub open spec fn requested_memo(text: Option<Seq<char>>) -> Result<u64, Error> {
    match text {
        None => Ok(DEFAULT_MEMO),
        Some(t) => text_memo(t),
    }
}

/// Writing a memo as text and reading the text gives the memo back.
pub proof fn lemma_memo_round_trip(memo: u64)
    ensures
        text_memo(memo_text(memo)) == Ok::<u64, Error>(memo),
        requested_memo(Some(memo_text(memo))) == Ok::<u64, Error>(memo),
{
    lemma_pow256_widths();
    lemma_le_value_of_le_bytes(memo as nat, MEMO_LENGTH as nat);
    lemma_decode_encode(le_bytes(memo as nat, MEMO_LENGTH as nat));
}

/// A command that names no memo has the memo zero.
pub proof fn lemma_absent_memo_is_zero()
    ensures
        requested_memo(None) == Ok::<u64, Error>(0),
{
}

/// Writes a memo as text.
pub fn memo_to_b64(memo: u64) -> (text: String)
    ensures
        text@ == memo_text(memo),
{
    let bytes = to_le_bytes(memo);
    encode(bytes.as_slice())
}

/// Reads a memo from text. The text is refused where it is not base64,
/// and where it holds more than eight bytes.
pub fn memo_from_b64(text: &str) -> (memo: Result<u64, Error>)
    ensures
        memo == text_memo(text@),
{
    match decode(text) {
        None => Err(Error::MemoEncoding),
        Some(bytes) => {
            if bytes.len() > MEMO_LENGTH {
                Err(Error::MemoLength)
            } else {
                proof {
                    lemma_le_value_fits(bytes@);
                }
                Ok(from_le_bytes(bytes.as_slice()))
            }
        },
    }
}

/// The memo of a command that was given `text`, or none: zero where it
/// was given none.
pub fn memo_or_default(text: Option<&str>) -> (memo: Result<u64, Error>)
    ensures
        memo == requested_memo(
            match text {
                Some(t) => Some(t@),
                None => None,
            },
        ),
{
    match text {
        None => Ok(DEFAULT_MEMO),
        Some(t) => memo_from_b64(t),
    }
}

} // verus!
