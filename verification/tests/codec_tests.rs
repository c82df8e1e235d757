use base64::Engine;
use glm_autopay::base64::decode_base64;
use glm_autopay::schedule::{pause_after_round, round_attempt_ids};
use glm_autopay::text::{push_decimal, push_hex, push_hex_bytes, str_eq, string_from_ascii};

#[test]
fn base64_decoding_accepts_canonical_text_only() {
    assert_eq!(decode_base64(b"aGVsbG8=").unwrap(), b"hello".to_vec());
    assert_eq!(decode_base64(b"aGVsbA==").unwrap(), b"hell".to_vec());
    assert_eq!(decode_base64(b"aGVs").unwrap(), b"hel".to_vec());
    assert_eq!(decode_base64(b"").unwrap(), Vec::<u8>::new());
    assert!(decode_base64(b"aGVsbG8").is_err());
    assert!(decode_base64(b"aGVsbA=").is_err());
    assert!(decode_base64(b"aGVsbG9=").is_err());
    assert!(decode_base64(b"aG-s").is_err());
}

#[test]
fn number_digits() {
    let mut v = Vec::new();
    push_decimal(&mut v, 0);
    push_decimal(&mut v, 1700000000);
    push_hex(&mut v, 0);
    push_hex(&mut v, 0xdeadbeef);
    push_hex(&mut v, u64::MAX);
    assert_eq!(v, b"017000000000deadbeefffffffffffffffff".to_vec());
    let mut h = Vec::new();
    push_hex_bytes(&mut h, &[0x00, 0x0f, 0xa0, 0xff]);
    assert_eq!(h, b"000fa0ff".to_vec());
    assert_eq!(string_from_ascii(b"abc"), "abc");
    assert!(str_eq("\u{e9}t\u{e9}", "\u{e9}t\u{e9}"));
    assert!(!str_eq("ab", "abc"));
}

#[test]
fn attempt_ids_count_on_from_the_last() {
    assert_eq!(round_attempt_ids(0, 3), vec![1, 2, 3]);
    assert_eq!(round_attempt_ids(30, 2), vec![31, 32]);
    assert!(round_attempt_ids(5, 0).is_empty());
}

#[test]
fn rounds_are_spread_to_one_per_second() {
    assert_eq!(pause_after_round(250_000_000, false), Some(750_000_000));
    assert_eq!(pause_after_round(0, false), Some(1_000_000_000));
    assert_eq!(pause_after_round(1_000_000_000, false), None);
    assert_eq!(pause_after_round(3_000_000_000, false), None);
    assert_eq!(pause_after_round(250_000_000, true), None);
}

#[test]
fn pkcs7_padding_is_undone_by_its_last_byte() {
    for n in 0..40usize {
        let data: Vec<u8> = (0..n as u8).collect();
        let mut padded = data.clone();
        glm_autopay::crypto::pkcs7_pad_in_place(&mut padded);
        assert_eq!(padded.len() % 16, 0);
        let last = *padded.last().unwrap() as usize;
        assert!((1..=16).contains(&last));
        assert_eq!(&padded[..padded.len() - last], &data[..]);
    }
}

#[test]
fn base64_decoding_inverts_the_crate_encoding() {
    for n in 0..20usize {
        let data: Vec<u8> = (0..n).map(|i| (i * 37 % 256) as u8).collect();
        let text = base64::engine::general_purpose::STANDARD.encode(&data);
        assert_eq!(text.len(), 4 * ((n + 2) / 3));
        assert_eq!(decode_base64(text.as_bytes()).unwrap(), data);
    }
}
