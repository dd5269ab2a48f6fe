//! The error kinds of the transport core.  All of them are fatal for the
//! session or exec they arise in; none crashes the connection by itself.

use vstd::prelude::*;

verus! {

/// What can go wrong while a connection is handled.
#[derive(Debug)]
pub enum SshHandlerErr {
    /// An operation referenced a channel id absent from the registry.
    ChannelNotFound,
    /// The peer requested termination with the interrupt byte, or the
    /// transport itself went away.
    Disconnect,
    /// The named repository does not exist or could not be opened.
    FailedToOpenRepo(gix::Error),
    /// An exec payload did not match the expected service or grammar, or a
    /// confirmation event did not match the original command.
    UnexpectedCommand,
    /// An exec payload named a service outside the allow-list.
    UnknownCommand,
}

impl SshHandlerErr {
    /// A short name of the error kind, for reporting outside the library.
    pub fn kind_name(&self) -> (r: &'static str)
        ensures
            match self {
                SshHandlerErr::ChannelNotFound => r@ == "channel not found"@,
                SshHandlerErr::Disconnect => r@ == "disconnect"@,
                SshHandlerErr::FailedToOpenRepo(_) => r@ == "failed to open repository"@,
                SshHandlerErr::UnexpectedCommand => r@ == "unexpected command"@,
                SshHandlerErr::UnknownCommand => r@ == "unknown command"@,
            },
    {
        match self {
            SshHandlerErr::ChannelNotFound => "channel not found",
            SshHandlerErr::Disconnect => "disconnect",
            SshHandlerErr::FailedToOpenRepo(_) => "failed to open repository",
            SshHandlerErr::UnexpectedCommand => "unexpected command",
            SshHandlerErr::UnknownCommand => "unknown command",
        }
    }
}

} // verus!
