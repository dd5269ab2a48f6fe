//! The receive-pack session: validate the exec command, extract the
//! single-quoted repository argument, build the repository path under the
//! data directory, open the repository, and decide how to react to each
//! channel event until the pack stream has been read to its flush
//! terminator.

use vstd::prelude::*;

use crate::error::SshHandlerErr;
use crate::handler::receive_pack_name;
use crate::pktline::spec_flush;
use crate::repo::open_repository;
use crate::util::{
    append_bytes, bytes_eq, copy_range, is_prefix_of, range_has_prefix, spec_trim, trim_range,
};

verus! {

/// The exec command names the receive-pack service: its whitespace-trimmed
/// bytes start with `git-receive-pack`.
pub open spec fn spec_cmd_ok(cmd: Seq<u8>) -> bool {
    is_prefix_of(receive_pack_name(), spec_trim(cmd))
}

/// The argument part of a receive-pack command: what follows the service
/// name in the trimmed command, itself trimmed.
pub open spec fn spec_args(cmd: Seq<u8>) -> Seq<u8>
    recommends
        spec_cmd_ok(cmd),
{
    spec_trim(spec_trim(cmd).subrange(16, spec_trim(cmd).len() as int))
}

/// The accepted argument grammar: one pair of single quotes around the
/// repository path, with no escaping.  Anything else is a contract
/// violation of the caller.
pub open spec fn spec_quoted(a: Seq<u8>) -> bool {
    a.len() >= 2 && a[0] == 39u8 && a[a.len() - 1] == 39u8
}

/// The repository name inside the quotes.
pub open spec fn spec_repo_name(cmd: Seq<u8>) -> Seq<u8>
    recommends
        spec_cmd_ok(cmd),
        spec_quoted(spec_args(cmd)),
{
    spec_args(cmd).subrange(1, spec_args(cmd).len() - 1)
}

/// Whether the trimmed command starts with `git-receive-pack`.
pub fn is_receive_pack_command(cmd: &Vec<u8>) -> (r: bool)
    ensures
        r == spec_cmd_ok(cmd@),
{
    let n: usize = cmd.len();
    let (a, b) = trim_range(cmd, 0, n);
    assert(cmd@.subrange(0, n as int) =~= cmd@);
    let name = crate::handler::receive_pack_name_bytes();
    range_has_prefix(cmd, a, b, &name)
}

/// Whether the command's argument obeys the single-quote grammar.
pub fn args_quoted(cmd: &Vec<u8>) -> (r: bool)
    requires
        spec_cmd_ok(cmd@),
    ensures
        r == spec_quoted(spec_args(cmd@)),
{
    let n: usize = cmd.len();
    let (a, b) = trim_range(cmd, 0, n);
    assert(cmd@.subrange(0, n as int) =~= cmd@);
    assert(b - a >= 16) by {
        assert(spec_trim(cmd@).len() >= receive_pack_name().len());
    }
    let (c, d) = trim_range(cmd, a + 16, b);
    proof {
        assert(spec_trim(cmd@).subrange(16, spec_trim(cmd@).len() as int) =~= cmd@.subrange(
            a + 16,
            b as int,
        ));
    }
    assert(spec_args(cmd@) == cmd@.subrange(c as int, d as int));
    if d - c < 2 {
        return false;
    }
    cmd[c] == 39 && cmd[d - 1] == 39
}

/// Extract the repository name from a receive-pack command whose argument
/// obeys the quote grammar.
pub fn parse_repo_name(cmd: &Vec<u8>) -> (r: Vec<u8>)
    requires
        spec_cmd_ok(cmd@),
        spec_quoted(spec_args(cmd@)),
    ensures
        r@ == spec_repo_name(cmd@),
{
    let n: usize = cmd.len();
    let (a, b) = trim_range(cmd, 0, n);
    assert(cmd@.subrange(0, n as int) =~= cmd@);
    assert(b - a >= 16) by {
        assert(spec_trim(cmd@).len() >= receive_pack_name().len());
    }
    let (c, d) = trim_range(cmd, a + 16, b);
    proof {
        assert(spec_trim(cmd@).subrange(16, spec_trim(cmd@).len() as int) =~= cmd@.subrange(
            a + 16,
            b as int,
        ));
    }
    assert(spec_args(cmd@) == cmd@.subrange(c as int, d as int));
    let name = copy_range(cmd, c + 1, d - 1);
    assert(cmd@.subrange(c + 1, d - 1) =~= spec_args(cmd@).subrange(
        1,
        spec_args(cmd@).len() - 1,
    ));
    name
}

/// Joining one component onto a path, the way the session builds its
/// repository path: an absolute component replaces the path, anything else
/// is appended behind a single separator.
pub open spec fn spec_path_join(a: Seq<u8>, b: Seq<u8>) -> Seq<u8> {
    if b.len() > 0 && b[0] == 47u8 {
        b
    } else if a.len() > 0 && a[a.len() - 1] == 47u8 {
        a + b
    } else {
        a + seq![47u8] + b
    }
}

/// The literal component `repositories`.
pub open spec fn repositories_component() -> Seq<u8> {
    seq![
        'r' as u8, 'e' as u8, 'p' as u8, 'o' as u8, 's' as u8, 'i' as u8, 't' as u8, 'o' as u8,
        'r' as u8, 'i' as u8, 'e' as u8, 's' as u8,
    ]
}

/// Where a push to the named repository is resolved: `./`, then the data
/// directory, then `repositories`, then `./` and the peer-supplied name.
pub open spec fn spec_repo_path(data_dir: Seq<u8>, name: Seq<u8>) -> Seq<u8> {
    spec_path_join(
        spec_path_join(spec_path_join(seq![46u8, 47u8], data_dir), repositories_component()),
        seq![46u8, 47u8] + name,
    )
}

fn path_push(buf: &mut Vec<u8>, comp: &Vec<u8>)
    ensures
        final(buf)@ == spec_path_join(old(buf)@, comp@),
{
    if comp.len() > 0 && comp[0] == 47 {
        buf.clear();
        append_bytes(buf, comp);
        assert(buf@ =~= spec_path_join(old(buf)@, comp@));
    } else {
        if !(buf.len() > 0 && buf[buf.len() - 1] == 47) {
            buf.push(47);
            append_bytes(buf, comp);
            assert(buf@ =~= spec_path_join(old(buf)@, comp@));
        } else {
            append_bytes(buf, comp);
            assert(buf@ =~= spec_path_join(old(buf)@, comp@));
        }
    }
}

/// Build the path under which the named repository is opened.
pub fn receive_pack_repo_path(data_dir: &Vec<u8>, name: &Vec<u8>) -> (r: Vec<u8>)
    ensures
        r@ == spec_repo_path(data_dir@, name@),
{
    let mut buf: Vec<u8> = Vec::new();
    buf.push(46);
    buf.push(47);
    assert(buf@ =~= seq![46u8, 47u8]);
    path_push(&mut buf, data_dir);
    let mut repositories: Vec<u8> = Vec::new();
    repositories.push('r' as u8);
    repositories.push('e' as u8);
    repositories.push('p' as u8);
    repositories.push('o' as u8);
    repositories.push('s' as u8);
    repositories.push('i' as u8);
    repositories.push('t' as u8);
    repositories.push('o' as u8);
    repositories.push('r' as u8);
    repositories.push('i' as u8);
    repositories.push('e' as u8);
    repositories.push('s' as u8);
    assert(repositories@ =~= repositories_component());
    path_push(&mut buf, &repositories);
    let mut last: Vec<u8> = Vec::new();
    last.push(46);
    last.push(47);
    append_bytes(&mut last, name);
    assert(last@ =~= seq![46u8, 47u8] + name@);
    path_push(&mut buf, &last);
    buf
}

/// Validate a receive-pack command and open the repository it names.  A
/// command that does not name the service is `UnexpectedCommand`; when the
/// repository cannot be opened the outside error is carried in
/// `FailedToOpenRepo`.  The argument must obey the quote grammar whenever
/// the command names the service.
pub fn receive_pack_open(cmd: &Vec<u8>, data_dir: &Vec<u8>) -> (r: Result<
    gix::Repository,
    SshHandlerErr,
>)
    requires
        spec_cmd_ok(cmd@) ==> spec_quoted(spec_args(cmd@)),
    ensures
        match r {
            Ok(_) => spec_cmd_ok(cmd@),
            Err(e) => ((e matches SshHandlerErr::UnexpectedCommand) && !spec_cmd_ok(cmd@)) || ((
            e matches SshHandlerErr::FailedToOpenRepo(_)) && spec_cmd_ok(cmd@)),
        },
{
    if !is_receive_pack_command(cmd) {
        return Err(SshHandlerErr::UnexpectedCommand);
    }
    let name = parse_repo_name(cmd);
    let path = receive_pack_repo_path(data_dir, &name);
    match open_repository(&path) {
        Ok(repo) => Ok(repo),
        Err(e) => Err(SshHandlerErr::FailedToOpenRepo(e)),
    }
}

/// One event delivered on the session's channel.
pub enum ChannelEvent {
    /// An exec confirmation carrying the command it confirms.
    Exec { want_reply: bool, command: Vec<u8> },
    /// Plain data outside the pack stream.
    Data,
    /// The peer signalled end of file.
    Eof,
    /// The channel was closed.
    Close,
    /// Any other message kind.
    Other,
}

/// What the session does next after an event.
#[derive(Debug, PartialEq, Eq)]
pub enum SessionStep {
    /// Advertise references and read the pack stream to its flush.
    ServePack,
    /// Keep waiting for further events.
    Continue,
    /// The session is over.
    Finished,
}

/// The session's reaction to one channel event.  Only the exec
/// confirmation that repeats the original command starts serving; a
/// confirmation for a different command is a protocol violation; closing
/// the channel ends the session; everything else is ignored.
pub fn receive_pack_step(cmd: &Vec<u8>, event: &ChannelEvent) -> (r: Result<
    SessionStep,
    SshHandlerErr,
>)
    ensures
        match *event {
            ChannelEvent::Exec { want_reply, ref command } => {
                if want_reply && command@ == cmd@ {
                    r matches Ok(SessionStep::ServePack)
                } else if want_reply {
                    r matches Err(SshHandlerErr::UnexpectedCommand)
                } else {
                    r matches Ok(SessionStep::Continue)
                }
            },
            ChannelEvent::Close => r matches Ok(SessionStep::Finished),
            _ => r matches Ok(SessionStep::Continue),
        },
{
    match event {
        ChannelEvent::Exec { want_reply, command } => {
            if *want_reply {
                if bytes_eq(command, cmd) {
                    Ok(SessionStep::ServePack)
                } else {
                    Err(SshHandlerErr::UnexpectedCommand)
                }
            } else {
                Ok(SessionStep::Continue)
            }
        },
        ChannelEvent::Close => Ok(SessionStep::Finished),
        _ => Ok(SessionStep::Continue),
    }
}

/// Whether the bytes read before the flush terminator are the terminator
/// alone: the client pushed nothing after reference discovery.
pub fn is_early_flush(client_data: &Vec<u8>) -> (r: bool)
    ensures
        r == (client_data@ == spec_flush()),
{
    let flush = crate::pktline::encode_flush();
    bytes_eq(client_data, &flush)
}

/// What the bytes received so far amount to.
#[derive(Debug, PartialEq, Eq)]
pub enum PackOutcome {
    /// The client sent only the flush terminator: an empty push, the
    /// session ends successfully with nothing received.
    EarlyExit,
    /// The flush terminator was found; the carried bytes are everything up
    /// to and including it.
    Received(Vec<u8>),
    /// The terminator has not arrived yet: keep reading.
    Incomplete,
}

/// Classify the bytes received so far on the session's channel: not yet
/// terminated, terminated with nothing before the flush, or terminated
/// with a negotiation/pack blob that ends at the first flush.
pub fn process_pack_stream(stream: &Vec<u8>) -> (r: PackOutcome)
    ensures
        match r {
            PackOutcome::Incomplete => !crate::util::pattern_occurs(stream@, spec_flush()),
            PackOutcome::EarlyExit => crate::util::match_at(stream@, spec_flush(), 4),
            PackOutcome::Received(data) => {
                &&& data@ == stream@.subrange(0, data@.len() as int)
                &&& crate::util::match_at(stream@, spec_flush(), data@.len() as int)
                &&& forall|m: int|
                    0 <= m < data@.len() ==> !crate::util::match_at(stream@, spec_flush(), m)
                &&& data@ != spec_flush()
            },
        },
{
    let pat = crate::pktline::encode_flush();
    let mut data: Vec<u8> = Vec::new();
    match crate::util::read_until_bytes(stream, &mut data, &pat) {
        None => PackOutcome::Incomplete,
        Some(_) => {
            if is_early_flush(&data) {
                assert(data@.len() == 4);
                PackOutcome::EarlyExit
            } else {
                PackOutcome::Received(data)
            }
        },
    }
}

} // verus!
