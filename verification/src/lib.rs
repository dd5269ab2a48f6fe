//! Core of a minimal git forge: the server side of the git smart-protocol
//! over a multiplexed remote-shell transport.
//!
//! The library covers the pkt-line wire codec, the byte-pattern scanner that
//! finds the flush terminator in an incoming stream, reference discovery,
//! the per-connection channel registry, and the decision logic of the
//! command dispatcher and the receive-pack session.  Transport I/O and the
//! event loop live outside the library and drive it with plain values.

use vstd::prelude::*;

pub mod error;
pub mod handler;
pub mod pktline;
pub mod receive_pack;
pub mod refs;
pub mod registry;
pub mod repo;
pub mod util;

verus! {

/// The transport server: it only carries the data directory under which
/// bare repositories are stored, and hands one handler to each connection.
pub struct SshServer {
    /// Path of the data directory, as raw bytes.
    pub data_dir: Vec<u8>,
}

impl SshServer {
    /// Create a server rooted at the given data directory.
    pub fn new(data_dir: Vec<u8>) -> (r: SshServer)
        ensures
            r.data_dir == data_dir,
    {
        SshServer { data_dir }
    }
}

} // verus!
