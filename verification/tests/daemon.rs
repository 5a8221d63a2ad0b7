use idlemon::lifecycle::{
    exit_failure, root_window_of_screen, ExitCause, LoopEnd, LoopKind, StartupError,
};

#[test]
fn root_window_is_that_of_the_screen() {
    assert_eq!(root_window_of_screen(&vec![11, 22], 1), Ok(22));
}

#[test]
fn missing_screen_is_an_error() {
    let error = root_window_of_screen(&vec![11, 22], 2).expect_err("no such screen");
    assert_eq!(error, StartupError::ScreenOutOfRange);
    assert_eq!(error.message(), "X11 screen index out of range");
}

#[test]
fn taken_name_is_explained() {
    assert_eq!(
        StartupError::NameTaken.message(),
        format!(
            "another process already owns {} on the session bus; refusing to compete",
            idlemon::WELL_KNOWN_NAME
        )
    );
}

#[test]
fn signals_end_the_daemon_cleanly() {
    assert_eq!(exit_failure(ExitCause::Interrupt), None);
    assert_eq!(exit_failure(ExitCause::Terminate), None);
}

#[test]
fn ended_loops_are_blamed() {
    let ended = |kind: LoopKind, end: LoopEnd| exit_failure(ExitCause::LoopEnded(kind, end));
    assert_eq!(ended(LoopKind::Poll, LoopEnd::Finished), None);
    assert_eq!(
        ended(LoopKind::Poll, LoopEnd::Failed),
        Some("poll loop exited with error".to_string())
    );
    assert_eq!(
        ended(LoopKind::Cleanup, LoopEnd::Failed),
        Some("cleanup loop exited with error".to_string())
    );
    assert_eq!(
        ended(LoopKind::Poll, LoopEnd::Panicked("boom".to_string())),
        Some("poll loop task panicked: boom".to_string())
    );
    assert_eq!(
        ended(LoopKind::Cleanup, LoopEnd::Panicked("boom".to_string())),
        Some("cleanup loop task panicked: boom".to_string())
    );
}
