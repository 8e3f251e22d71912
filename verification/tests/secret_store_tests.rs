use gsb_connect::base64::{decode, encode, DecodeError};
use gsb_connect::secret_store::{
    decrypt, encrypt, field_text, plaintext_text, protect, unprotect, StoreError, ENCRYPTION_ACTIVE,
};

#[test]
fn round_trips_various_lengths() {
    for sample in ["", "f", "fo", "foo", "foob", "fooba", "foobar"] {
        let encoded = encode(sample.as_bytes());
        let decoded = decode(&encoded).expect("decode");
        assert_eq!(decoded, sample.as_bytes());
    }
}

#[test]
fn known_vectors() {
    assert_eq!(encode(b"foobar"), "Zm9vYmFy");
    assert_eq!(encode(b"foo"), "Zm9v");
    assert_eq!(encode(b"fo"), "Zm8=");
    assert_eq!(decode("Zm9vYmFy").unwrap(), b"foobar");
}

#[test]
fn rejects_garbage() {
    assert!(decode("not base64 *").is_err());
}

#[test]
fn protect_unprotect_round_trip() {
    let secret = "S3cr3t value with symbols !@#";
    let stored = protect(secret).expect("protect");
    assert_ne!(stored, secret, "stored form must not be the raw secret");
    let recovered = unprotect(&stored).expect("unprotect");
    assert_eq!(recovered, secret);
}

#[test]
fn decode_skips_whitespace_and_padding() {
    assert_eq!(decode(" Zm9v\r\nYmFy \t").unwrap(), b"foobar");
    assert_eq!(decode("Zm8==").unwrap(), b"fo");
    assert_eq!(decode("Zm8").unwrap(), b"fo");
    assert_eq!(decode("Z"), Err(DecodeError::InvalidLength));
    assert_eq!(decode("A"), Err(DecodeError::InvalidLength));
    assert_eq!(decode("Zm9vY"), Err(DecodeError::InvalidLength));
    assert_eq!(decode("Zm9vY==="), Err(DecodeError::InvalidLength));
    assert_eq!(decode("").unwrap(), b"");
    assert_eq!(decode("Zm=8"), Err(DecodeError::InvalidSymbol));
    assert_eq!(decode("Zmé="), Err(DecodeError::InvalidSymbol));
}

#[test]
fn encodes_all_alphabet_characters() {
    assert_eq!(encode(&[0xfb, 0xff, 0xbf]), "+/+/");
    assert_eq!(encode(&[0x00, 0x10, 0x83]), "ABCD");
    assert_eq!(encode(&[0xff]), "/w==");
}

#[test]
fn unprotect_reports_each_error() {
    assert_eq!(unprotect("***"), Err(StoreError::InvalidBase64));
    assert_eq!(unprotect("/w=="), Err(StoreError::InvalidUtf8));
    assert_eq!(unprotect("w6c=").unwrap(), "ç");
    assert_eq!(StoreError::InvalidUtf8.message(), "decrypted data was not valid UTF-8");
}

#[test]
fn pass_through_cipher() {
    assert!(!ENCRYPTION_ACTIVE);
    assert_eq!(encrypt(b"abc").unwrap(), b"abc");
    assert_eq!(decrypt(b"xyz").unwrap(), b"xyz");
    assert_eq!(protect("Şifre").unwrap(), "xZ5pZnJl");
}

#[test]
fn plaintext_bytes_read_as_text() {
    assert_eq!(plaintext_text(b"pass".to_vec()), Ok("pass".to_string()));
    assert_eq!(plaintext_text(vec![0xC5, 0x9F]), Ok("ş".to_string()));
    assert_eq!(plaintext_text(vec![0xFF, 0x41]), Err(StoreError::InvalidUtf8));
    assert_eq!(plaintext_text(vec![0xC5]), Err(StoreError::InvalidUtf8));
}

#[test]
fn stored_fields_read_from_recovered_bytes() {
    assert_eq!(field_text("cHc=", Some(b"pw".to_vec())), "pw");
    assert_eq!(field_text("", Some(b"pw".to_vec())), "");
    assert_eq!(field_text("cHc=", None), "");
    assert_eq!(field_text("cHc=", Some(vec![0xFF])), "");
    assert_eq!(unprotect("Zm9vY"), Err(StoreError::InvalidBase64));
}

#[test]
fn inserted_whitespace_changes_nothing() {
    let base = "Zm9vYmE=";
    for i in 0..=base.len() {
        for w in [" ", "\t", "\r", "\n"] {
            let t = format!("{}{}{}", &base[..i], w, &base[i..]);
            assert_eq!(decode(&t), decode(base));
        }
    }
    assert_eq!(decode("Z \n"), decode("Z"));
    assert_eq!(decode("Zm\t*"), decode("Zm*"));
}

#[test]
fn encodings_end_in_the_right_padding() {
    for (len, pads) in [(0usize, 0usize), (1, 2), (2, 1), (3, 0), (4, 2), (5, 1)] {
        let text = encode(&vec![0xA5; len]);
        let trailing = text.len() - text.trim_end_matches('=').len();
        assert_eq!(trailing, pads);
        assert!(text.trim_end_matches('=').bytes().all(|b| b.is_ascii_alphanumeric() || b == b'+' || b == b'/'));
    }
}
