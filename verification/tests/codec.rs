//! Tests of the pkt-line codec.

use git_transport::pktline::{decode, encode_flush, encode_line, Pkt};

fn is_hex(b: u8) -> bool {
    (48..=57).contains(&b) || (97..=102).contains(&b) || (65..=70).contains(&b)
}

#[test]
fn encode_line_simple() {
    assert_eq!(encode_line(&b"a".to_vec()), b"0005a".to_vec());
}

#[test]
fn encode_line_empty_payload() {
    assert_eq!(encode_line(&Vec::new()), b"0004".to_vec());
}

#[test]
fn flush_is_literal_zeroes() {
    assert_eq!(encode_flush(), b"0000".to_vec());
}

#[test]
fn roundtrip_simple() {
    let p = b"something with spaces\n".to_vec();
    assert_eq!(decode(&encode_line(&p)), Some(Pkt::Line(p)));
}

#[test]
fn roundtrip_empty_payload() {
    assert_eq!(decode(&encode_line(&Vec::new())), Some(Pkt::Line(Vec::new())));
}

#[test]
fn roundtrip_max_payload() {
    let p = vec![0xabu8; 65516];
    let e = encode_line(&p);
    assert_eq!(e.len(), 65520);
    assert_eq!(&e[0..4], b"fff0");
    assert_eq!(decode(&e), Some(Pkt::Line(p)));
}

#[test]
fn length_prefix_is_four_hex_digits() {
    for n in [0usize, 1, 2, 15, 16, 255, 4096, 65516] {
        let e = encode_line(&vec![b'x'; n]);
        assert_eq!(e.len(), n + 4);
        assert!(e[0..4].iter().all(|&b| is_hex(b)));
    }
}

#[test]
fn decode_flush_marker() {
    assert_eq!(decode(&b"0000".to_vec()), Some(Pkt::Flush));
}

#[test]
fn decode_accepts_upper_case_digits() {
    assert_eq!(decode(&b"000Ahello\n".to_vec()), Some(Pkt::Line(b"hello\n".to_vec())));
}

#[test]
fn decode_rejects_malformed() {
    assert_eq!(decode(&b"".to_vec()), None);
    assert_eq!(decode(&b"000".to_vec()), None);
    assert_eq!(decode(&b"00zzab".to_vec()), None);
    // Declared lengths 1 to 3 cannot even cover the length field.
    assert_eq!(decode(&b"0001".to_vec()), None);
    assert_eq!(decode(&b"0003".to_vec()), None);
    // The declared length must match the buffer exactly.
    assert_eq!(decode(&b"0005".to_vec()), None);
    assert_eq!(decode(&b"0005abc".to_vec()), None);
    // A flush marker with trailing bytes is not one pkt-line.
    assert_eq!(decode(&b"0000x".to_vec()), None);
    // Above the wire maximum of fff0.
    let mut big = b"fff1".to_vec();
    big.extend(std::iter::repeat(b'y').take(65521 - 4));
    assert_eq!(decode(&big), None);
}
