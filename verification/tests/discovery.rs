//! Tests of the reference advertisement rendering.

use git_transport::pktline::{encode_flush, encode_line};
use git_transport::refs::advertisement;
use git_transport::repo::RefRecord;

fn record(oid: &[u8], name: &[u8]) -> RefRecord {
    RefRecord { oid: oid.to_vec(), name: name.to_vec() }
}

#[test]
fn two_branches_give_two_lines_and_flush() {
    let oid1 = b"4e1243bd22c66e76c2ba9eddc1f91394e57f9f83";
    let oid2 = b"9d5ed678fe57bcca610140957afab571283a37aa";
    let refs = vec![record(oid1, b"refs/heads/main"), record(oid2, b"refs/heads/dev")];
    let mut expected = encode_line(&b"4e1243bd22c66e76c2ba9eddc1f91394e57f9f83 refs/heads/main\0".to_vec());
    expected.extend(encode_line(&b"9d5ed678fe57bcca610140957afab571283a37aa refs/heads/dev\0".to_vec()));
    expected.extend(encode_flush());
    assert_eq!(advertisement(&refs).unwrap(), expected);
}

#[test]
fn zero_branches_give_only_flush() {
    assert_eq!(advertisement(&Vec::new()).unwrap(), b"0000".to_vec());
}

#[test]
fn oversized_reference_is_refused() {
    let refs = vec![record(b"abc", &vec![b'n'; 70000])];
    assert!(advertisement(&refs).is_none());
}

#[test]
fn advertisement_line_format() {
    let refs = vec![record(b"ff", b"refs/heads/x")];
    // Payload "ff refs/heads/x\0" has 16 bytes, so the line declares 0014.
    let out = advertisement(&refs).unwrap();
    assert_eq!(out, b"0014ff refs/heads/x\x000000".to_vec());
}
