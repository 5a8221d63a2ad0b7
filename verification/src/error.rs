//! Why a request is refused.
use vstd::prelude::*;
use vstd::string::StringExecFns;

verus! {

/// The reason for which a request gets an error reply.
#[derive(Clone, Debug, PartialEq, Eq)]
pub enum MonitorError {
    /// The request does not say which connection sent it.
    NoSender,
    /// The X server did not answer the idle-time query; holds what went wrong.
    IdleTimeQuery(String),
    /// Every watch id is in use.
    NoFreeWatchId,
}

impl MonitorError {
    /// The text of the error reply.
    pub open spec fn text(self) -> Seq<char> {
        match self {
            MonitorError::NoSender => "D-Bus message has no sender"@,
            MonitorError::IdleTimeQuery(cause) => "X11 idle-time query failed: "@ + cause@,
            MonitorError::NoFreeWatchId => "every watch id is in use"@,
        }
    }

    /// The text of the error reply.
    pub fn message(&self) -> (message: String)
        ensures
            message@ == self.text(),
    {
        match self {
            MonitorError::NoSender => "D-Bus message has no sender".to_owned(),
            MonitorError::IdleTimeQuery(cause) => {
                "X11 idle-time query failed: ".to_owned().concat(cause.as_str())
            },
            MonitorError::NoFreeWatchId => "every watch id is in use".to_owned(),
        }
    }
}

} // verus!
