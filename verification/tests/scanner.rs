//! Tests of the byte-pattern scanner.

use git_transport::pktline::{encode_flush, encode_line};
use git_transport::util::read_until_bytes;

#[test]
fn empty_pattern_consumes_entire_source() {
    let src = b"abcdef".to_vec();
    let mut dst: Vec<u8> = Vec::new();
    assert_eq!(read_until_bytes(&src, &mut dst, &Vec::new()), Some(6));
    assert_eq!(dst, src);
}

#[test]
fn empty_pattern_on_empty_source() {
    let mut dst: Vec<u8> = Vec::new();
    assert_eq!(read_until_bytes(&Vec::new(), &mut dst, &Vec::new()), Some(0));
    assert_eq!(dst, Vec::<u8>::new());
}

#[test]
fn false_match_recovery() {
    // The leading 0 followed by 1 must not end the scan: the true
    // occurrence starts at the second 0.
    let src = b"010000".to_vec();
    let mut dst: Vec<u8> = Vec::new();
    assert_eq!(read_until_bytes(&src, &mut dst, &b"0000".to_vec()), Some(6));
    assert_eq!(dst, src);
}

#[test]
fn flush_after_one_line() {
    // A stream of one encoded line and then a flush: the scan consumes
    // exactly the line plus the four flush bytes.
    let mut stream = encode_line(&b"a".to_vec());
    let line_len = stream.len();
    stream.extend(encode_flush());
    let mut dst: Vec<u8> = Vec::new();
    let r = read_until_bytes(&stream, &mut dst, &b"0000".to_vec());
    assert_eq!(r, Some(line_len + 4));
    assert_eq!(dst, stream);
}

#[test]
fn pattern_at_start() {
    let src = b"0000rest".to_vec();
    let mut dst: Vec<u8> = Vec::new();
    assert_eq!(read_until_bytes(&src, &mut dst, &b"0000".to_vec()), Some(4));
    assert_eq!(dst, b"0000".to_vec());
}

#[test]
fn pattern_absent_reads_everything() {
    let src = b"abcabc".to_vec();
    let mut dst = b"seed".to_vec();
    assert_eq!(read_until_bytes(&src, &mut dst, &b"xy".to_vec()), None);
    assert_eq!(dst, b"seedabcabc".to_vec());
}

#[test]
fn single_byte_pattern() {
    let src = b"hello world".to_vec();
    let mut dst: Vec<u8> = Vec::new();
    assert_eq!(read_until_bytes(&src, &mut dst, &b" ".to_vec()), Some(6));
    assert_eq!(dst, b"hello ".to_vec());
}

#[test]
fn pattern_longer_than_source() {
    let src = b"ab".to_vec();
    let mut dst: Vec<u8> = Vec::new();
    assert_eq!(read_until_bytes(&src, &mut dst, &b"abc".to_vec()), None);
    assert_eq!(dst, src);
}

#[test]
fn overlapping_candidates() {
    let src = b"aaab".to_vec();
    let mut dst: Vec<u8> = Vec::new();
    assert_eq!(read_until_bytes(&src, &mut dst, &b"aab".to_vec()), Some(4));
    assert_eq!(dst, src);
}
