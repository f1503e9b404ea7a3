//! What can stop a resolution before or while it runs.

use vstd::prelude::*;

verus! {

/// Every failure is final: nothing is retried and nothing goes on with half
/// of what it needs.
#[derive(Clone, Copy, Debug, PartialEq, Eq, Hash, Structural)]
pub enum Error {
    /// No interface has the index that was asked for.
    InvalidInterface,
    /// The interface has no IPv4 address bound to it.
    NoIpv4,
    /// The interface reports no hardware address.
    MissingMacAddress,
    /// The raw channel on the interface could not be opened.
    OpenChannel,
    /// The link failed a read or a write. A read that merely saw no frame
    /// within its timeout is not one of these.
    Transport,
}

impl Error {
    /// The sentence that tells a person what went wrong.
    pub open spec fn spec_message(self) -> Seq<char> {
        match self {
            Error::InvalidInterface => "The specified interface does not exist"@,
            Error::NoIpv4 => "Failed to find host IPv4 address"@,
            Error::MissingMacAddress => "The interface has no hardware address"@,
            Error::OpenChannel => "Failed to open datalink channel. Are you root?"@,
            Error::Transport => "The datalink channel failed"@,
        }
    }

    pub fn message(&self) -> (m: &'static str)
        ensures
            m@ == self.spec_message(),
    {
        match self {
            Error::InvalidInterface => "The specified interface does not exist",
            Error::NoIpv4 => "Failed to find host IPv4 address",
            Error::MissingMacAddress => "The interface has no hardware address",
            Error::OpenChannel => "Failed to open datalink channel. Are you root?",
            Error::Transport => "The datalink channel failed",
        }
    }
}

} // verus!
