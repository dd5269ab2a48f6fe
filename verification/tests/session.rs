//! Tests of the command dispatcher and of the receive-pack session logic.

use git_transport::error::SshHandlerErr;
use git_transport::handler::{authenticate, on_channel_data, parse_service, Service};
use git_transport::receive_pack::{
    is_early_flush, parse_repo_name, process_pack_stream, receive_pack_open,
    receive_pack_repo_path, receive_pack_step, ChannelEvent, PackOutcome, SessionStep,
};
use git_transport::util::read_until_bytes;
use git_transport::SshServer;

#[test]
fn server_keeps_data_dir() {
    let s = SshServer::new(b"/srv/forge".to_vec());
    assert_eq!(s.data_dir, b"/srv/forge".to_vec());
}

#[test]
fn accept_all_authentication() {
    assert!(authenticate());
}

#[test]
fn allow_list_accepts_both_services() {
    let r = parse_service(&b"git-receive-pack 'repo'".to_vec());
    assert_eq!(r.unwrap(), Service::ReceivePack);
    let r = parse_service(&b"git-upload-pack 'repo'".to_vec());
    assert_eq!(r.unwrap(), Service::UploadPack);
    // Surrounding whitespace is trimmed before matching.
    let r = parse_service(&b"  git-receive-pack 'repo'  \n".to_vec());
    assert_eq!(r.unwrap(), Service::ReceivePack);
}

#[test]
fn allow_list_rejects_other_commands() {
    assert!(matches!(
        parse_service(&b"rm -rf /".to_vec()),
        Err(SshHandlerErr::UnexpectedCommand)
    ));
    assert!(matches!(
        parse_service(&b"git-fetch-pack 'repo'".to_vec()),
        Err(SshHandlerErr::UnexpectedCommand)
    ));
    assert!(matches!(parse_service(&b"".to_vec()), Err(SshHandlerErr::UnexpectedCommand)));
}

#[test]
fn interrupt_byte_disconnects() {
    assert!(matches!(on_channel_data(&vec![3u8]), Err(SshHandlerErr::Disconnect)));
    assert!(on_channel_data(&b"ordinary".to_vec()).is_ok());
    assert!(on_channel_data(&vec![3u8, 3u8]).is_ok());
    assert!(on_channel_data(&Vec::new()).is_ok());
}

#[test]
fn repo_name_from_quoted_argument() {
    let cmd = b"git-receive-pack 'my-repo'".to_vec();
    assert_eq!(parse_repo_name(&cmd), b"my-repo".to_vec());
    let cmd = b"  git-receive-pack   'a/b'  ".to_vec();
    assert_eq!(parse_repo_name(&cmd), b"a/b".to_vec());
    let cmd = b"git-receive-pack ''".to_vec();
    assert_eq!(parse_repo_name(&cmd), b"".to_vec());
}

#[test]
fn repo_path_under_data_dir() {
    assert_eq!(
        receive_pack_repo_path(&b"data".to_vec(), &b"repo".to_vec()),
        b"./data/repositories/./repo".to_vec()
    );
    // An absolute data directory replaces the leading dot component.
    assert_eq!(
        receive_pack_repo_path(&b"/srv/data".to_vec(), &b"r".to_vec()),
        b"/srv/data/repositories/./r".to_vec()
    );
    // A directory with a trailing separator gets no second one.
    assert_eq!(
        receive_pack_repo_path(&b"d/".to_vec(), &b"r".to_vec()),
        b"./d/repositories/./r".to_vec()
    );
}

#[test]
fn open_rejects_foreign_command() {
    let r = receive_pack_open(&b"git-upload-pack 'x'".to_vec(), &b"data".to_vec());
    assert!(matches!(r, Err(SshHandlerErr::UnexpectedCommand)));
}

#[test]
fn open_reports_missing_repository() {
    let cmd = b"git-receive-pack 'no-such-repo'".to_vec();
    let r = receive_pack_open(&cmd, &b"/no-such-data-dir".to_vec());
    assert!(matches!(r, Err(SshHandlerErr::FailedToOpenRepo(_))));
}

#[test]
fn step_serves_on_matching_confirmation() {
    let cmd = b"git-receive-pack 'r'".to_vec();
    let ev = ChannelEvent::Exec { want_reply: true, command: cmd.clone() };
    assert_eq!(receive_pack_step(&cmd, &ev).unwrap(), SessionStep::ServePack);
}

#[test]
fn step_rejects_mismatched_confirmation() {
    let cmd = b"git-receive-pack 'r'".to_vec();
    let ev = ChannelEvent::Exec { want_reply: true, command: b"git-receive-pack 'other'".to_vec() };
    assert!(matches!(receive_pack_step(&cmd, &ev), Err(SshHandlerErr::UnexpectedCommand)));
}

#[test]
fn step_ignores_side_events() {
    let cmd = b"git-receive-pack 'r'".to_vec();
    let ev = ChannelEvent::Exec { want_reply: false, command: cmd.clone() };
    assert_eq!(receive_pack_step(&cmd, &ev).unwrap(), SessionStep::Continue);
    assert_eq!(receive_pack_step(&cmd, &ChannelEvent::Data).unwrap(), SessionStep::Continue);
    assert_eq!(receive_pack_step(&cmd, &ChannelEvent::Eof).unwrap(), SessionStep::Continue);
    assert_eq!(receive_pack_step(&cmd, &ChannelEvent::Other).unwrap(), SessionStep::Continue);
}

#[test]
fn step_finishes_on_close() {
    let cmd = b"git-receive-pack 'r'".to_vec();
    assert_eq!(receive_pack_step(&cmd, &ChannelEvent::Close).unwrap(), SessionStep::Finished);
}

#[test]
fn early_flush_push_completes_empty() {
    // The client sends only a flush line right after reference discovery:
    // the session ends successfully with nothing received.
    let cmd = b"git-receive-pack 'r'".to_vec();
    let ev = ChannelEvent::Exec { want_reply: true, command: cmd.clone() };
    assert_eq!(receive_pack_step(&cmd, &ev).unwrap(), SessionStep::ServePack);
    let incoming = b"0000".to_vec();
    let mut received: Vec<u8> = Vec::new();
    let consumed = read_until_bytes(&incoming, &mut received, &b"0000".to_vec());
    assert_eq!(consumed, Some(4));
    assert!(is_early_flush(&received));
}

#[test]
fn pack_stream_early_exit() {
    assert_eq!(process_pack_stream(&b"0000".to_vec()), PackOutcome::EarlyExit);
    // Whatever follows the first flush does not matter for the decision.
    assert_eq!(process_pack_stream(&b"0000trailing".to_vec()), PackOutcome::EarlyExit);
}

#[test]
fn pack_stream_incomplete_then_received() {
    assert_eq!(process_pack_stream(&b"0008abcd".to_vec()), PackOutcome::Incomplete);
    assert_eq!(
        process_pack_stream(&b"0008abcd0000".to_vec()),
        PackOutcome::Received(b"0008abcd0000".to_vec())
    );
}

#[test]
fn pack_data_is_not_early_flush() {
    assert!(!is_early_flush(&b"0008abcd0000".to_vec()));
    assert!(!is_early_flush(&b"".to_vec()));
}

#[test]
fn error_kind_names() {
    assert_eq!(SshHandlerErr::ChannelNotFound.kind_name(), "channel not found");
    assert_eq!(SshHandlerErr::Disconnect.kind_name(), "disconnect");
    assert_eq!(SshHandlerErr::UnexpectedCommand.kind_name(), "unexpected command");
    assert_eq!(SshHandlerErr::UnknownCommand.kind_name(), "unknown command");
}
