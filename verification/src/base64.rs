//! The standard base64 alphabet with `=` padding: three bytes become four
//! characters, and a trailing group of one or two bytes is padded to four.
//! Decoding accepts exactly the texts that encoding produces.

use vstd::prelude::*;

verus! {

/// The character that stands for the six-bit value `v`.
pub open spec fn sextet_char(v: int) -> char {
    if v < 26 {
        (v + 65) as char
    } else if v < 52 {
        (v + 71) as char
    } else if v < 62 {
        (v - 4) as char
    } else if v == 62 {
        '+'
    } else {
        '/'
    }
}

/// The six-bit value that `c` stands for, if `c` belongs to the alphabet.
pub open spec fn char_sextet(c: char) -> Option<int> {
    if 'A' <= c <= 'Z' {
        Some(c as int - 65)
    } else if 'a' <= c <= 'z' {
        Some(c as int - 71)
    } else if '0' <= c <= '9' {
        Some(c as int + 4)
    } else if c == '+' {
        Some(62)
    } else if c == '/' {
        Some(63)
    } else {
        None
    }
}

/// The four characters of a group of three bytes.
pub open spec fn text_of_three(a: u8, b: u8, c: u8) -> Seq<char> {
    seq![
        sextet_char(a as int / 4),
        sextet_char((a as int % 4) * 16 + b as int / 16),
        sextet_char((b as int % 16) * 4 + c as int / 64),
        sextet_char(c as int % 64),
    ]
}

/// The four characters of a final group of two bytes.
pub open spec fn text_of_two(a: u8, b: u8) -> Seq<char> {
    seq![
        sextet_char(a as int / 4),
        sextet_char((a as int % 4) * 16 + b as int / 16),
        sextet_char((b as int % 16) * 4),
        '=',
    ]
}

/// The four characters of a final group of one byte.
pub open spec fn text_of_one(a: u8) -> Seq<char> {
    seq![sextet_char(a as int / 4), sextet_char((a as int % 4) * 16), '=', '=']
}

/// The text of a byte sequence.
pub open spec fn encoded(bytes: Seq<u8>) -> Seq<char>
    decreases bytes.len(),
{
    if bytes.len() == 0 {
        Seq::empty()
    } else if bytes.len() == 1 {
        text_of_one(bytes[0])
    } else if bytes.len() == 2 {
        text_of_two(bytes[0], bytes[1])
    } else {
        text_of_three(bytes[0], bytes[1], bytes[2]) + encoded(bytes.skip(3))
    }
}

/// The byte of a final group that ends in `==`. The text of one byte leaves
/// the low four bits of its second character clear.
pub open spec fn decoded_one(c0: char, c1: char) -> Option<Seq<u8>> {
    match (char_sextet(c0), char_sextet(c1)) {
        (Some(s0), Some(s1)) => if s1 % 16 == 0 {
            Some(seq![(s0 * 4 + s1 / 16) as u8])
        } else {
            None
        },
        _ => None,
    }
}

/// The bytes of a final group that ends in a single `=`. The text of two
/// bytes leaves the low two bits of its third character clear.
pub open spec fn decoded_two(c0: char, c1: char, c2: char) -> Option<Seq<u8>> {
    match (char_sextet(c0), char_sextet(c1), char_sextet(c2)) {
        (Some(s0), Some(s1), Some(s2)) => if s2 % 4 == 0 {
            Some(seq![(s0 * 4 + s1 / 16) as u8, ((s1 % 16) * 16 + s2 / 4) as u8])
        } else {
            None
        },
        _ => None,
    }
}

/// The bytes of a group of four alphabet characters.
pub open spec fn decoded_three(c0: char, c1: char, c2: char, c3: char) -> Option<Seq<u8>> {
    match (char_sextet(c0), char_sextet(c1), char_sextet(c2), char_sextet(c3)) {
        (Some(s0), Some(s1), Some(s2), Some(s3)) => Some(
            seq![
                (s0 * 4 + s1 / 16) as u8,
                ((s1 % 16) * 16 + s2 / 4) as u8,
                ((s2 % 4) * 64 + s3) as u8,
            ],
        ),
        _ => None,
    }
}

/// The bytes that a text stands for, or `None` where it is not the text of
/// any byte sequence.
pub open spec fn decoded(text: Seq<char>) -> Option<Seq<u8>>
    decreases text.len(),
{
    if text.len() == 0 {
        Some(Seq::empty())
    } else if text.len() < 4 {
        None
    } else if text.len() == 4 && text[3] == '=' {
        if text[2] == '=' {
            decoded_one(text[0], text[1])
        } else {
            decoded_two(text[0], text[1], text[2])
        }
    } else {
        prepended(
            decoded_three(text[0], text[1], text[2], text[3]),
            decoded(text.skip(4)),
        )
    }
}

/// `head` followed by `tail`, where both are there.
pub open spec fn prepended(head: Option<Seq<u8>>, tail: Option<Seq<u8>>) -> Option<Seq<u8>> {
    match (head, tail) {
        (Some(group), Some(rest)) => Some(group + rest),
        _ => None,
    }
}

/// Every six-bit value and its character stand for each other.
pub proof fn lemma_sextet_char(v: int)
    requires
        0 <= v < 64,
    ensures
        char_sextet(sextet_char(v)) == Some(v),
        sextet_char(v) != '=',
{
}

/// A character of the alphabet is the character of its own value, and is
/// an ASCII character other than `=`.
pub proof fn lemma_char_sextet(c: char)
    requires
        char_sextet(c) is Some,
    ensures
        0 <= char_sextet(c).unwrap() < 64,
        sextet_char(char_sextet(c).unwrap()) == c,
        c != '=',
        c <= '\u{7f}',
{
}

proof fn lemma_three_decodes(a: u8, b: u8, c: u8)
    ensures
        ({
            let t = text_of_three(a, b, c);
            decoded_three(t[0], t[1], t[2], t[3]) == Some(seq![a, b, c]) && t[3] != '='
        }),
{
    lemma_sextet_char(a as int / 4);
    lemma_sextet_char((a as int % 4) * 16 + b as int / 16);
    lemma_sextet_char((b as int % 16) * 4 + c as int / 64);
    lemma_sextet_char(c as int % 64);
    let t = text_of_three(a, b, c);
    assert(decoded_three(t[0], t[1], t[2], t[3]).unwrap() =~= seq![a, b, c]);
}

proof fn lemma_two_decodes(a: u8, b: u8)
    ensures
        ({
            let t = text_of_two(a, b);
            decoded_two(t[0], t[1], t[2]) == Some(seq![a, b]) && t[2] != '='
        }),
{
    lemma_sextet_char(a as int / 4);
    lemma_sextet_char((a as int % 4) * 16 + b as int / 16);
    lemma_sextet_char((b as int % 16) * 4);
    let t = text_of_two(a, b);
    assert(decoded_two(t[0], t[1], t[2]).unwrap() =~= seq![a, b]);
}

proof fn lemma_one_decodes(a: u8)
    ensures
        ({
            let t = text_of_one(a);
            decoded_one(t[0], t[1]) == Some(seq![a])
        }),
{
    lemma_sextet_char(a as int / 4);
    lemma_sextet_char((a as int % 4) * 16);
    let t = text_of_one(a);
    assert(decoded_one(t[0], t[1]).unwrap() =~= seq![a]);
}

proof fn lemma_three_encodes(c0: char, c1: char, c2: char, c3: char)
    requires
        decoded_three(c0, c1, c2, c3) is Some,
    ensures
        ({
            let g = decoded_three(c0, c1, c2, c3).unwrap();
            g.len() == 3 && text_of_three(g[0], g[1], g[2]) == seq![c0, c1, c2, c3]
        }),
{
    lemma_char_sextet(c0);
    lemma_char_sextet(c1);
    lemma_char_sextet(c2);
    lemma_char_sextet(c3);
    let g = decoded_three(c0, c1, c2, c3).unwrap();
    assert(text_of_three(g[0], g[1], g[2]) =~= seq![c0, c1, c2, c3]);
}

proof fn lemma_two_encodes(c0: char, c1: char, c2: char)
    requires
        decoded_two(c0, c1, c2) is Some,
    ensures
        ({
            let g = decoded_two(c0, c1, c2).unwrap();
            g.len() == 2 && text_of_two(g[0], g[1]) == seq![c0, c1, c2, '=']
        }),
{
    lemma_char_sextet(c0);
    lemma_char_sextet(c1);
    lemma_char_sextet(c2);
    let g = decoded_two(c0, c1, c2).unwrap();
    assert(text_of_two(g[0], g[1]) =~= seq![c0, c1, c2, '=']);
}

proof fn lemma_one_encodes(c0: char, c1: char)
    requires
        decoded_one(c0, c1) is Some,
    ensures
        ({
            let g = decoded_one(c0, c1).unwrap();
            g.len() == 1 && text_of_one(g[0]) == seq![c0, c1, '=', '=']
        }),
{
    lemma_char_sextet(c0);
    lemma_char_sextet(c1);
    let g = decoded_one(c0, c1).unwrap();
    assert(text_of_one(g[0]) =~= seq![c0, c1, '=', '=']);
}

/// Decoding the text of a byte sequence gives the sequence back.
pub proof fn lemma_decode_encode(bytes: Seq<u8>)
    ensures
        decoded(encoded(bytes)) == Some(bytes),
    decreases bytes.len(),
{
    if bytes.len() == 0 {
    } else if bytes.len() == 1 {
        lemma_one_decodes(bytes[0]);
    } else if bytes.len() == 2 {
        lemma_two_decodes(bytes[0], bytes[1]);
    } else {
        lemma_three_decodes(bytes[0], bytes[1], bytes[2]);
        lemma_decode_encode(bytes.skip(3));
        assert(encoded(bytes).skip(4) =~= encoded(bytes.skip(3)));
    }
}

/// A text that decodes is the text of the bytes it decodes to.
pub proof fn lemma_encode_decode(text: Seq<char>)
    requires
        decoded(text) is Some,
    ensures
        encoded(decoded(text).unwrap()) == text,
    decreases text.len(),
{
    if text.len() == 0 {
    } else if text.len() == 4 && text[3] == '=' {
        if text[2] == '=' {
            lemma_one_encodes(text[0], text[1]);
        } else {
            lemma_two_encodes(text[0], text[1], text[2]);
        }
    } else {
        lemma_three_encodes(text[0], text[1], text[2], text[3]);
        lemma_encode_decode(text.skip(4));
        assert(decoded(text).unwrap().skip(3) =~= decoded(text.skip(4)).unwrap());
    }
}

/// A text that does not decode is the text of no byte sequence.
pub proof fn lemma_undecodable(text: Seq<char>, bytes: Seq<u8>)
    requires
        decoded(text) is None,
    ensures
        encoded(bytes) != text,
{
    lemma_decode_encode(bytes);
}

/// A text that decodes holds ASCII characters only.
pub proof fn lemma_decoded_is_ascii(text: Seq<char>)
    requires
        decoded(text) is Some,
    ensures
        vstd::utf8::is_ascii_chars(text),
    decreases text.len(),
{
    if text.len() == 0 {
    } else if text.len() == 4 && text[3] == '=' {
        lemma_char_sextet(text[0]);
        lemma_char_sextet(text[1]);
        if text[2] != '=' {
            lemma_char_sextet(text[2]);
        }
    } else {
        lemma_char_sextet(text[0]);
        lemma_char_sextet(text[1]);
        lemma_char_sextet(text[2]);
        lemma_char_sextet(text[3]);
        lemma_decoded_is_ascii(text.skip(4));
        assert forall|i: int| 0 <= i < text.len() implies '\0' <= #[trigger] text[i]
            <= '\u{7f}' by {
            if i >= 4 {
                assert(text[i] == text.skip(4)[i - 4]);
            }
        }
    }
}

fn sextet_to_char(v: u8) -> (c: char)
    requires
        v < 64,
    ensures
        c == sextet_char(v as int),
{
    if v < 26 {
        (v + 65) as char
    } else if v < 52 {
        (v + 71) as char
    } else if v < 62 {
        (v - 4) as char
    } else if v == 62 {
        '+'
    } else {
        '/'
    }
}

fn sextet_of_char(b: u8) -> (v: Option<u8>)
    ensures
        match v {
            Some(s) => char_sextet(b as char) == Some(s as int) && s < 64,
            None => char_sextet(b as char) is None,
        },
{
    if 65 <= b && b <= 90 {
        Some(b - 65)
    } else if 97 <= b && b <= 122 {
        Some(b - 71)
    } else if 48 <= b && b <= 57 {
        Some(b + 4)
    } else if b == 43 {
        Some(62)
    } else if b == 47 {
        Some(63)
    } else {
        None
    }
}

/// Encodes `bytes`.
pub fn encode(bytes: &[u8]) -> (text: String)
    ensures
        text@ == encoded(bytes@),
{
    let mut text = String::new();
    let n: usize = bytes.len();
    let mut i: usize = 0;
    proof {
        assert(bytes@.skip(0) =~= bytes@);
        assert(text@ + encoded(bytes@) =~= encoded(bytes@));
    }
    while n - i >= 3
        invariant
            i <= n,
            n == bytes@.len(),
            encoded(bytes@) == text@ + encoded(bytes@.skip(i as int)),
        decreases n - i,
    {
        let a: u8 = bytes[i];
        let b: u8 = bytes[i + 1];
        let c: u8 = bytes[i + 2];
        proof {
            assert(bytes@.skip(i as int).skip(3) =~= bytes@.skip(i + 3));
        }
        text.push(sextet_to_char(a / 4));
        text.push(sextet_to_char((a % 4) * 16 + b / 16));
        text.push(sextet_to_char((b % 16) * 4 + c / 64));
        text.push(sextet_to_char(c % 64));
        i = i + 3;
    }
    let ghost before = text@;
    if n - i == 1 {
        let a: u8 = bytes[i];
        text.push(sextet_to_char(a / 4));
        text.push(sextet_to_char((a % 4) * 16));
        text.push('=');
        text.push('=');
    } else if n - i == 2 {
        let a: u8 = bytes[i];
        let b: u8 = bytes[i + 1];
        text.push(sextet_to_char(a / 4));
        text.push(sextet_to_char((a % 4) * 16 + b / 16));
        text.push(sextet_to_char((b % 16) * 4));
        text.push('=');
    } else {
        proof {
            assert(text@ =~= before + encoded(bytes@.skip(i as int)));
        }
    }
    text
}

/// Decodes `text`: `Some` of the bytes whose text it is, `None` where there
/// are none.
pub fn decode(text: &str) -> (bytes: Option<Vec<u8>>)
    ensures
        match bytes {
            Some(b) => decoded(text@) == Some(b@),
            None => decoded(text@) is None,
        },
{
    if !text.is_ascii() {
        proof {
            if decoded(text@) is Some {
                lemma_decoded_is_ascii(text@);
            }
        }
        return None;
    }
    proof {
        vstd::string::is_ascii_spec_bytes(text);
    }
    let raw: &[u8] = text.as_bytes();
    let n: usize = raw.len();
    let mut out: Vec<u8> = Vec::new();
    let mut i: usize = 0;
    proof {
        assert(text@.skip(0) =~= text@);
    }
    while i < n
        invariant
            i <= n,
            n == text@.len(),
            raw@.len() == n,
            forall|k: int| 0 <= k < n ==> text@[k] == (#[trigger] raw@[k]) as char,
            decoded(text@) == prepended(Some(out@), decoded(text@.skip(i as int))),
        decreases n - i,
    {
        let ghost tail = text@.skip(i as int);
        if n - i < 4 {
            return None;
        }
        let c0: u8 = raw[i];
        let c1: u8 = raw[i + 1];
        let c2: u8 = raw[i + 2];
        let c3: u8 = raw[i + 3];
        proof {
            assert(tail[0] == c0 as char && tail[1] == c1 as char && tail[2] == c2 as char
                && tail[3] == c3 as char);
        }
        let s0 = sextet_of_char(c0);
        let s1 = sextet_of_char(c1);
        let s2 = sextet_of_char(c2);
        let s3 = sextet_of_char(c3);
        if n - i == 4 && c3 == 61 {
            if c2 == 61 {
                match (s0, s1) {
                    (Some(v0), Some(v1)) => {
                        if v1 % 16 == 0 {
                            out.push(v0 * 4 + v1 / 16);
                            return Some(out);
                        } else {
                            return None;
                        }
                    },
                    _ => {
                        return None;
                    },
                }
            } else {
                match (s0, s1, s2) {
                    (Some(v0), Some(v1), Some(v2)) => {
                        if v2 % 4 == 0 {
                            out.push(v0 * 4 + v1 / 16);
                            out.push((v1 % 16) * 16 + v2 / 4);
                            return Some(out);
                        } else {
                            return None;
                        }
                    },
                    _ => {
                        return None;
                    },
                }
            }
        }
        match (s0, s1, s2, s3) {
            (Some(v0), Some(v1), Some(v2), Some(v3)) => {
                out.push(v0 * 4 + v1 / 16);
                out.push((v1 % 16) * 16 + v2 / 4);
                out.push((v2 % 4) * 64 + v3);
                proof {
                    assert(tail.skip(4) =~= text@.skip(i + 4));
                }
                i = i + 4;
            },
            _ => {
                return None;
            },
        }
    }
    Some(out)
}

} // verus!
