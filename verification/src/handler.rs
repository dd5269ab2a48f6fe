//! The connection-level dispatcher: accept-all authentication, channel
//! lifecycle, the interrupt byte on raw data, and recognition of the git
//! service named by an exec request.

use vstd::prelude::*;

use crate::error::SshHandlerErr;
use crate::registry::ChannelRegistry;
use crate::util::{is_prefix_of, spec_trim, trim_range, range_has_prefix};

verus! {

/// The per-connection handler state: the channel registry and the data
/// directory the server was started with.
pub struct GitSshHandler {
    /// The registry of this connection's open channels.
    pub registry: ChannelRegistry,
    /// Path of the data directory, as raw bytes.
    pub data_dir: Vec<u8>,
}

impl GitSshHandler {
    /// A handler for a fresh connection: no channel is open yet.
    pub fn new(data_dir: Vec<u8>) -> (r: GitSshHandler)
        ensures
            r.registry@ == Map::<u64, Seq<Seq<u8>>>::empty(),
            r.data_dir == data_dir,
    {
        GitSshHandler { registry: ChannelRegistry::new(), data_dir }
    }

    /// Register a newly opened channel.  The transport assigns ids, so the
    /// id must be fresh; the caller treats a duplicate as a fatal bug.
    pub fn add_channel(&mut self, id: u64)
        requires
            !old(self).registry@.contains_key(id),
        ensures
            final(self).registry@ == old(self).registry@.insert(id, Seq::<Seq<u8>>::empty()),
            final(self).data_dir == old(self).data_dir,
    {
        self.registry.open_channel(id);
    }

    /// Remove a closed channel; `ChannelNotFound` when it was not open.
    pub fn remove_channel(&mut self, id: u64) -> (r: Result<(), SshHandlerErr>)
        ensures
            old(self).registry@.contains_key(id) ==> r is Ok && final(self).registry@ == old(
                self,
            ).registry@.remove(id),
            !old(self).registry@.contains_key(id) ==> (r matches Err(
                SshHandlerErr::ChannelNotFound,
            )) && final(self).registry@ == old(self).registry@,
            final(self).data_dir == old(self).data_dir,
    {
        self.registry.close_channel(id)
    }
}

/// Authentication decision: every attempt is accepted, whatever the method.
/// This accept-all behaviour is deliberate and explicit, not a placeholder.
pub fn authenticate() -> (r: bool)
    ensures
        r,
{
    true
}

/// Decision on raw or extended data received outside an exec: a single
/// interrupt byte (0x03) is a client-initiated disconnect; everything else
/// is ignored.
pub fn on_channel_data(data: &Vec<u8>) -> (r: Result<(), SshHandlerErr>)
    ensures
        data@ == seq![3u8] ==> (r matches Err(SshHandlerErr::Disconnect)),
        data@ != seq![3u8] ==> r is Ok,
{
    if data.len() == 1 && data[0] == 3 {
        assert(data@ =~= seq![3u8]);
        Err(SshHandlerErr::Disconnect)
    } else {
        proof {
            if data@ == seq![3u8] {
                assert(data@.len() == 1);
                assert(data@[0] == 3u8);
            }
        }
        Ok(())
    }
}

/// A recognized git service.
#[derive(Debug, PartialEq, Eq)]
pub enum Service {
    /// `git-receive-pack`: accept a push.
    ReceivePack,
    /// `git-upload-pack`: recognized, not served further by this core.
    UploadPack,
}

/// The service name `git-receive-pack` as bytes.
pub open spec fn receive_pack_name() -> Seq<u8> {
    seq![
        'g' as u8, 'i' as u8, 't' as u8, '-' as u8, 'r' as u8, 'e' as u8, 'c' as u8, 'e' as u8,
        'i' as u8, 'v' as u8, 'e' as u8, '-' as u8, 'p' as u8, 'a' as u8, 'c' as u8, 'k' as u8,
    ]
}

/// The service name `git-upload-pack` as bytes.
pub open spec fn upload_pack_name() -> Seq<u8> {
    seq![
        'g' as u8, 'i' as u8, 't' as u8, '-' as u8, 'u' as u8, 'p' as u8, 'l' as u8, 'o' as u8,
        'a' as u8, 'd' as u8, '-' as u8, 'p' as u8, 'a' as u8, 'c' as u8, 'k' as u8,
    ]
}

/// The byte form of `git-receive-pack`.
pub fn receive_pack_name_bytes() -> (r: Vec<u8>)
    ensures
        r@ == receive_pack_name(),
{
    let mut r: Vec<u8> = Vec::new();
    r.push('g' as u8);
    r.push('i' as u8);
    r.push('t' as u8);
    r.push('-' as u8);
    r.push('r' as u8);
    r.push('e' as u8);
    r.push('c' as u8);
    r.push('e' as u8);
    r.push('i' as u8);
    r.push('v' as u8);
    r.push('e' as u8);
    r.push('-' as u8);
    r.push('p' as u8);
    r.push('a' as u8);
    r.push('c' as u8);
    r.push('k' as u8);
    assert(r@ =~= receive_pack_name());
    r
}

/// The byte form of `git-upload-pack`.
pub fn upload_pack_name_bytes() -> (r: Vec<u8>)
    ensures
        r@ == upload_pack_name(),
{
    let mut r: Vec<u8> = Vec::new();
    r.push('g' as u8);
    r.push('i' as u8);
    r.push('t' as u8);
    r.push('-' as u8);
    r.push('u' as u8);
    r.push('p' as u8);
    r.push('l' as u8);
    r.push('o' as u8);
    r.push('a' as u8);
    r.push('d' as u8);
    r.push('-' as u8);
    r.push('p' as u8);
    r.push('a' as u8);
    r.push('c' as u8);
    r.push('k' as u8);
    assert(r@ =~= upload_pack_name());
    r
}

/// Match an exec command against the fixed allow-list of git services, by
/// prefix of the whitespace-trimmed command, `git-receive-pack` first.  A
/// command that names neither service is rejected before any session
/// starts.
pub fn parse_service(cmd: &Vec<u8>) -> (r: Result<Service, SshHandlerErr>)
    ensures
        is_prefix_of(receive_pack_name(), spec_trim(cmd@)) ==> (r matches Ok(
            Service::ReceivePack,
        )),
        !is_prefix_of(receive_pack_name(), spec_trim(cmd@)) && is_prefix_of(
            upload_pack_name(),
            spec_trim(cmd@),
        ) ==> (r matches Ok(Service::UploadPack)),
        !is_prefix_of(receive_pack_name(), spec_trim(cmd@)) && !is_prefix_of(
            upload_pack_name(),
            spec_trim(cmd@),
        ) ==> (r matches Err(SshHandlerErr::UnexpectedCommand)),
{
    let n: usize = cmd.len();
    let (a, b) = trim_range(cmd, 0, n);
    assert(cmd@.subrange(0, n as int) =~= cmd@);
    let recv = receive_pack_name_bytes();
    if range_has_prefix(cmd, a, b, &recv) {
        return Ok(Service::ReceivePack);
    }
    let upl = upload_pack_name_bytes();
    if range_has_prefix(cmd, a, b, &upl) {
        return Ok(Service::UploadPack);
    }
    Err(SshHandlerErr::UnexpectedCommand)
}

} // verus!
