//! Starting and ending the daemon.
use vstd::prelude::*;
use vstd::string::StringExecFns;

verus! {

/// Why the daemon does not start.
#[derive(Clone, Copy, Debug, PartialEq, Eq)]
pub enum StartupError {
    /// The X server has no screen of the connection's number.
    ScreenOutOfRange,
    /// Another process serves the interface already.
    NameTaken,
}

impl StartupError {
    /// The text of the error.
    pub open spec fn text(self) -> Seq<char> {
        match self {
            StartupError::ScreenOutOfRange => "X11 screen index out of range"@,
            StartupError::NameTaken =>
                "another process already owns org.gnome.Mutter.IdleMonitor on the session bus; refusing to compete"@,
        }
    }

    /// The text of the error.
    pub fn message(&self) -> (message: String)
        ensures
            message@ == self.text(),
    {
        match self {
            StartupError::ScreenOutOfRange => "X11 screen index out of range".to_owned(),
            StartupError::NameTaken =>
                "another process already owns org.gnome.Mutter.IdleMonitor on the session bus; refusing to compete".to_owned(),
        }
    }
}

/// The root window of a screen, given those of all screens.
pub fn root_window_of_screen(roots: &Vec<u32>, screen_num: usize) -> (root: Result<
    u32,
    StartupError,
>)
    ensures
        root == if screen_num < roots@.len() {
            Ok::<u32, StartupError>(roots@[screen_num as int])
        } else {
            Err(StartupError::ScreenOutOfRange)
        },
{
    if screen_num < roots.len() {
        Ok(roots[screen_num])
    } else {
        Err(StartupError::ScreenOutOfRange)
    }
}

/// Which of the two background loops is meant.
#[derive(Clone, Copy, Debug, PartialEq, Eq)]
pub enum LoopKind {
    /// The loop that samples the idle time.
    Poll,
    /// The loop that removes the watches of vanished connections.
    Cleanup,
}

/// How a background loop has ended.
#[derive(Clone, Debug)]
pub enum LoopEnd {
    /// It has finished.
    Finished,
    /// It has returned an error.
    Failed,
    /// It has panicked; holds the panic's description.
    Panicked(String),
}

/// What ends the daemon.
#[derive(Clone, Debug)]
pub enum ExitCause {
    /// The interrupt signal.
    Interrupt,
    /// The termination signal.
    Terminate,
    /// One of the background loops has ended.
    LoopEnded(LoopKind, LoopEnd),
}

/// The name of a loop in messages.
pub open spec fn loop_name(kind: LoopKind) -> Seq<char> {
    match kind {
        LoopKind::Poll => "poll loop"@,
        LoopKind::Cleanup => "cleanup loop"@,
    }
}

/// What the daemon's exit is blamed on, or `None` for a clean exit.
pub open spec fn exit_blame(cause: ExitCause) -> Option<Seq<char>> {
    match cause {
        ExitCause::LoopEnded(kind, LoopEnd::Failed) => Some(
            loop_name(kind) + " exited with error"@,
        ),
        ExitCause::LoopEnded(kind, LoopEnd::Panicked(panic)) => Some(
            loop_name(kind) + " task panicked: "@ + panic@,
        ),
        _ => None,
    }
}

/// Tells a clean exit from a failure. A signal ends the daemon cleanly, an
/// error or a panic of one of its loops does not.
pub fn exit_failure(cause: ExitCause) -> (failure: Option<String>)
    ensures
        match failure {
            Some(message) => exit_blame(cause) == Some(message@),
            None => exit_blame(cause) is None,
        },
{
    match cause {
        ExitCause::Interrupt => None,
        ExitCause::Terminate => None,
        ExitCause::LoopEnded(kind, end) => {
            let name = match kind {
                LoopKind::Poll => "poll loop".to_owned(),
                LoopKind::Cleanup => "cleanup loop".to_owned(),
            };
            match end {
                LoopEnd::Finished => None,
                LoopEnd::Failed => Some(name.concat(" exited with error")),
                LoopEnd::Panicked(panic) => Some(
                    name.concat(" task panicked: ").concat(panic.as_str()),
                ),
            }
        },
    }
}

} // verus!
