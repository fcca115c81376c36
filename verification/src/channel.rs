//! Why a tool is made to stop, in words.

use vstd::prelude::*;

verus! {

#[derive(Debug, Clone, Copy, PartialEq, Eq, Structural)]
pub enum ShutdownReason {
    Timeout,
    RequestedByClient,
    ConnectionError,
}

impl ShutdownReason {
    /// The sentence that tells a tool why it was stopped.
    pub open spec fn sentence(self) -> Seq<char> {
        match self {
            ShutdownReason::Timeout => "Tool was forced to stop: Timeout"@,
            ShutdownReason::RequestedByClient => "Tool was forced to stop: RequestedByClient"@,
            ShutdownReason::ConnectionError => "Tool was forced to stop: ConnectionError"@,
        }
    }
}

impl From<ShutdownReason> for String {
    fn from(value: ShutdownReason) -> (res: Self)
        ensures
            res@ == value.sentence(),
    {
        match value {
            ShutdownReason::Timeout => "Tool was forced to stop: Timeout".to_owned(),
            ShutdownReason::RequestedByClient => "Tool was forced to stop: RequestedByClient".to_owned(),
            ShutdownReason::ConnectionError => "Tool was forced to stop: ConnectionError".to_owned(),
        }
    }
}

impl vstd::std_specs::convert::FromSpecImpl<ShutdownReason> for String {
    open spec fn obeys_from_spec() -> bool {
        false
    }

    open spec fn from_spec(value: ShutdownReason) -> Self {
        arbitrary()
    }
}

} // verus!
