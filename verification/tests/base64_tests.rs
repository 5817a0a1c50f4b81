use base64::engine::general_purpose::STANDARD;
use base64::Engine;
use helium_wallet::base64::{decode, encode};

#[test]
fn encodes_the_empty_sequence_as_the_empty_text() {
    assert_eq!(encode(&[]), "");
    assert_eq!(decode(""), Some(vec![]));
}

#[test]
fn encodes_known_vectors() {
    assert_eq!(encode(b"f"), "Zg==");
    assert_eq!(encode(b"fo"), "Zm8=");
    assert_eq!(encode(b"foo"), "Zm9v");
    assert_eq!(encode(b"foob"), "Zm9vYg==");
    assert_eq!(encode(b"fooba"), "Zm9vYmE=");
    assert_eq!(encode(b"foobar"), "Zm9vYmFy");
    assert_eq!(encode(&[0xfb, 0xff, 0xfe]), "+//+");
}

#[test]
fn decodes_known_vectors() {
    assert_eq!(decode("Zg=="), Some(b"f".to_vec()));
    assert_eq!(decode("Zm8="), Some(b"fo".to_vec()));
    assert_eq!(decode("Zm9v"), Some(b"foo".to_vec()));
    assert_eq!(decode("Zm9vYg=="), Some(b"foob".to_vec()));
    assert_eq!(decode("Zm9vYmE="), Some(b"fooba".to_vec()));
    assert_eq!(decode("Zm9vYmFy"), Some(b"foobar".to_vec()));
    assert_eq!(decode("+//+"), Some(vec![0xfb, 0xff, 0xfe]));
}

#[test]
fn refuses_texts_that_encode_nothing() {
    // wrong length
    assert_eq!(decode("Z"), None);
    assert_eq!(decode("Zg"), None);
    assert_eq!(decode("Zg="), None);
    assert_eq!(decode("Zm9vY"), None);
    // characters outside the alphabet
    assert_eq!(decode("Zm9-"), None);
    assert_eq!(decode("Zm 9"), None);
    assert_eq!(decode("Zm9\u{e9}"), None);
    // padding anywhere but at the end
    assert_eq!(decode("Zg==Zm9v"), None);
    assert_eq!(decode("=m9v"), None);
    assert_eq!(decode("Z=9v"), None);
    assert_eq!(decode("Zm=v"), None);
    assert_eq!(decode("===="), None);
    // bits set under the padding
    assert_eq!(decode("Zh=="), None);
    assert_eq!(decode("Zm9="), None);
}

#[test]
fn agrees_with_the_base64_crate_on_every_short_input() {
    let mut bytes: Vec<u8> = Vec::new();
    let mut seed: u32 = 0x2545_f491;
    for len in 0..64usize {
        bytes.clear();
        for _ in 0..len {
            seed = seed.wrapping_mul(1_664_525).wrapping_add(1_013_904_223);
            bytes.push((seed >> 24) as u8);
        }
        let text = encode(&bytes);
        assert_eq!(text, STANDARD.encode(&bytes));
        assert_eq!(decode(&text), Some(bytes.clone()));
        assert_eq!(STANDARD.decode(&text).ok(), Some(bytes.clone()));
    }
}

#[test]
fn agrees_with_the_base64_crate_on_what_it_refuses() {
    for text in ["Zh==", "Zm9=", "Zg", "Zg=", "Zm9vYg", "Zg==Zm9v", "Z m9", "Zm9v\n"] {
        assert_eq!(decode(text), STANDARD.decode(text).ok(), "{}", text);
    }
}

#[test]
fn round_trips_every_single_byte() {
    for b in 0..=255u8 {
        assert_eq!(decode(&encode(&[b])), Some(vec![b]));
        assert_eq!(decode(&encode(&[b, b])), Some(vec![b, b]));
        assert_eq!(decode(&encode(&[b, 0, b])), Some(vec![b, 0, b]));
    }
}
