//! Tests of the channel registry and of the capability negotiation.

use git_transport::error::SshHandlerErr;
use git_transport::handler::GitSshHandler;
use git_transport::registry::{split_colon, ChannelRegistry};

#[test]
fn close_unknown_channel_fails() {
    let mut reg = ChannelRegistry::new();
    assert!(matches!(reg.close_channel(7), Err(SshHandlerErr::ChannelNotFound)));
}

#[test]
fn open_close_close_again() {
    let mut reg = ChannelRegistry::new();
    reg.open_channel(1);
    assert!(reg.contains_channel(1));
    assert!(reg.close_channel(1).is_ok());
    assert!(!reg.contains_channel(1));
    assert!(matches!(reg.close_channel(1), Err(SshHandlerErr::ChannelNotFound)));
}

#[test]
fn open_starts_with_empty_capabilities() {
    let mut reg = ChannelRegistry::new();
    reg.open_channel(4);
    assert_eq!(reg.capabilities(4).unwrap(), Vec::<Vec<u8>>::new());
}

#[test]
fn capability_replace_not_merge() {
    let mut reg = ChannelRegistry::new();
    reg.open_channel(2);
    assert!(reg.env_request(2, &b"GIT_PROTOCOL".to_vec(), &b"a:b".to_vec()).is_ok());
    assert_eq!(reg.capabilities(2).unwrap(), vec![b"a".to_vec(), b"b".to_vec()]);
    assert!(reg.env_request(2, &b"GIT_PROTOCOL".to_vec(), &b"c".to_vec()).is_ok());
    assert_eq!(reg.capabilities(2).unwrap(), vec![b"c".to_vec()]);
}

#[test]
fn other_variable_accepted_and_ignored() {
    let mut reg = ChannelRegistry::new();
    reg.open_channel(3);
    assert!(reg.env_request(3, &b"GIT_PROTOCOL".to_vec(), &b"version=2".to_vec()).is_ok());
    assert!(reg.env_request(3, &b"LANG".to_vec(), &b"C".to_vec()).is_ok());
    assert_eq!(reg.capabilities(3).unwrap(), vec![b"version=2".to_vec()]);
}

#[test]
fn env_request_unknown_channel_fails() {
    let mut reg = ChannelRegistry::new();
    assert!(matches!(
        reg.env_request(9, &b"GIT_PROTOCOL".to_vec(), &b"x".to_vec()),
        Err(SshHandlerErr::ChannelNotFound)
    ));
}

#[test]
fn set_capabilities_unknown_channel_fails() {
    let mut reg = ChannelRegistry::new();
    assert!(matches!(
        reg.set_capabilities(5, vec![b"t".to_vec()]),
        Err(SshHandlerErr::ChannelNotFound)
    ));
}

#[test]
fn capabilities_unknown_channel_fails() {
    let reg = ChannelRegistry::new();
    assert!(matches!(reg.capabilities(1), Err(SshHandlerErr::ChannelNotFound)));
}

#[test]
fn split_colon_cases() {
    assert_eq!(split_colon(&b"a:b".to_vec()), vec![b"a".to_vec(), b"b".to_vec()]);
    assert_eq!(split_colon(&b"c".to_vec()), vec![b"c".to_vec()]);
    assert_eq!(split_colon(&b"".to_vec()), vec![b"".to_vec()]);
    assert_eq!(
        split_colon(&b"a::b".to_vec()),
        vec![b"a".to_vec(), b"".to_vec(), b"b".to_vec()]
    );
    assert_eq!(split_colon(&b":x:".to_vec()), vec![b"".to_vec(), b"x".to_vec(), b"".to_vec()]);
}

#[test]
fn handler_channel_lifecycle() {
    let mut h = GitSshHandler::new(b"data".to_vec());
    h.add_channel(11);
    assert!(h.remove_channel(11).is_ok());
    assert!(matches!(h.remove_channel(11), Err(SshHandlerErr::ChannelNotFound)));
}
