//! The status of the link as observers see it.

use vstd::prelude::*;

verus! {

/// Where a connection attempt stands.
///
/// A fresh attempt moves `Disconnected -> Connecting`, and from there only
/// back to `Disconnected`: receiving packets does not promote the link to
/// `Connected`. `Connected` is kept for peers that acknowledge; nothing in
/// this crate ever sets it.
#[derive(Clone, Copy, Debug, PartialEq, Eq, Structural)]
pub enum ConnectionStatus {
    Connected,
    Connecting,
    Disconnected,
}

/// The text that stands for a status in a status event.
pub open spec fn status_name(status: ConnectionStatus) -> Seq<char> {
    match status {
        ConnectionStatus::Connected => "connected"@,
        ConnectionStatus::Connecting => "connecting"@,
        ConnectionStatus::Disconnected => "disconnected"@,
    }
}

impl ConnectionStatus {
    /// A status under which a connection attempt is under way or has
    /// succeeded, so that no second attempt may start.
    pub open spec fn active(self) -> bool {
        self == ConnectionStatus::Connecting || self == ConnectionStatus::Connected
    }

    /// Whether a connection attempt is under way or has succeeded.
    pub fn is_active(&self) -> (r: bool)
        ensures
            r == self.active(),
    {
        match self {
            ConnectionStatus::Connected => true,
            ConnectionStatus::Connecting => true,
            ConnectionStatus::Disconnected => false,
        }
    }

    /// The payload of a status event: `connected`, `connecting` or
    /// `disconnected`.
    pub fn name(&self) -> (r: &'static str)
        ensures
            r@ == status_name(*self),
    {
        match self {
            ConnectionStatus::Connected => "connected",
            ConnectionStatus::Connecting => "connecting",
            ConnectionStatus::Disconnected => "disconnected",
        }
    }
}

/// The three payloads are pairwise different, so a status event names
/// exactly one status.
pub proof fn lemma_status_name_injective(a: ConnectionStatus, b: ConnectionStatus)
    requires
        status_name(a) == status_name(b),
    ensures
        a == b,
{
    reveal_strlit("connected");
    reveal_strlit("connecting");
    reveal_strlit("disconnected");
    assert("connected"@.len() == 9);
    assert("connecting"@.len() == 10);
    assert("disconnected"@.len() == 12);
}

} // verus!
