use wsproto::accept::derive_accept_key;
use wsproto::base64::encode_base64;

#[test]
fn base64_empty_input_yields_empty_text() {
    assert_eq!(encode_base64(&[]), "");
}

#[test]
fn base64_rfc4648_vectors() {
    assert_eq!(encode_base64(&[0x66]), "Zg==");
    assert_eq!(encode_base64(&[0x66, 0x6F]), "Zm8=");
    assert_eq!(encode_base64(&[0x66, 0x6F, 0x6F]), "Zm9v");
    assert_eq!(encode_base64(b"foob"), "Zm9vYg==");
    assert_eq!(encode_base64(b"fooba"), "Zm9vYmE=");
    assert_eq!(encode_base64(b"foobar"), "Zm9vYmFy");
}

#[test]
fn base64_uses_full_alphabet() {
    assert_eq!(encode_base64(&[0xFB, 0xEF, 0xBE]), "++++");
    assert_eq!(encode_base64(&[0xFF, 0xFF, 0xFF]), "////");
    assert_eq!(encode_base64(&[0x00, 0x00, 0x00]), "AAAA");
}

#[test]
fn base64_length_is_padded_group_count() {
    for n in 0usize..40 {
        let data = vec![0xA7u8; n];
        let encoded = encode_base64(&data);
        assert_eq!(encoded.len() % 4, 0);
        assert_eq!(encoded.len(), (n + 2) / 3 * 4);
    }
}

#[test]
fn accept_key_rfc6455_example() {
    let key = b"dGhlIHNhbXBsZSBub25jZQ==";
    assert_eq!(derive_accept_key(key), "s3pPLMBiTxaQ9kYGzzhZRbK+xOo=");
}

#[test]
fn accept_key_is_28_chars_with_one_pad() {
    for key in [&b""[..], b"x", b"dGhlIHNhbXBsZSBub25jZQ==", b"0123456789abcdef"] {
        let accept = derive_accept_key(key);
        assert_eq!(accept.len(), 28);
        assert!(accept.ends_with('='));
        assert!(!accept[..27].contains('='));
    }
}

#[test]
fn accept_key_depends_on_the_key() {
    assert_ne!(derive_accept_key(b"a"), derive_accept_key(b"b"));
}
