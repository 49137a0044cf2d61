use scrawl::error::ScrawlError;
use scrawl::session::{Action, EditOutcome, Event, SessionState, start, step};

/// Drives a started session with the given events and returns every action
/// the machine issued (the starting action included) and the final state.
fn drive(
    started: (SessionState, Action),
    events: Vec<Event>,
) -> (Vec<Action>, SessionState) {
    let (mut state, first) = (started.0, started.1);
    let mut actions = vec![first];
    for e in events {
        let (next_state, action) = step(state, e);
        actions.push(action);
        state = next_state;
    }
    (actions, state)
}

#[test]
fn inplace_with_empty_source_is_a_configuration_error() {
    let (state, action) = start(scrawl::new().edit(), None);
    assert_eq!(
        state,
        SessionState::Done { result: Err(ScrawlError::Configuration), cleanup_warning: false }
    );
    assert_eq!(action, Action::Finish);
}

#[test]
fn inplace_with_inline_text_is_a_configuration_error() {
    let (state, action) = start(scrawl::with("Hello World!").edit(), None);
    assert_eq!(
        state,
        SessionState::Done { result: Err(ScrawlError::Configuration), cleanup_warning: false }
    );
    assert_eq!(action, Action::Finish);
}

#[test]
fn inline_text_session_returns_the_edited_text() {
    // The editor stub appends " edited" to the scratch file and exits 0.
    let (state, first) = start(scrawl::with("Hello World!"), Some("stub".to_string()));
    assert_eq!(first, Action::CreateTemp { initial: Some("Hello World!".to_string()) });

    let (state, action) = step(state, Event::TempCreated { path: "scratch-1".to_string() });
    assert_eq!(
        action,
        Action::RunEditor {
            cmd: scrawl::editor::EditorCommand { program: "stub".to_string(), args: Vec::new() },
            target: "scratch-1".to_string(),
        }
    );

    let (state, action) = step(state, Event::EditorExited { code: 0 });
    assert_eq!(action, Action::ReadBack { target: "scratch-1".to_string() });

    let (state, action) = step(state, Event::ReadDone { text: "Hello World! edited".to_string() });
    assert_eq!(action, Action::DeleteTemp { target: "scratch-1".to_string() });

    let (state, action) = step(state, Event::Deleted);
    assert_eq!(action, Action::Finish);
    assert_eq!(
        state,
        SessionState::Done {
            result: Ok(EditOutcome::Text("Hello World! edited".to_string())),
            cleanup_warning: false,
        }
    );
}

#[test]
fn temporary_session_never_writes_the_source_file() {
    // Whatever the editor does to the scratch copy, no action of the run
    // targets the source path: it is only named as what to copy from.
    let (actions, state) = drive(
        start(scrawl::open("precious.txt"), None),
        vec![
            Event::TempCreated { path: "scratch-2".to_string() },
            Event::EditorExited { code: 0 },
            Event::ReadDone { text: "rewritten by the editor".to_string() },
            Event::Deleted,
        ],
    );
    assert_eq!(actions[0], Action::CopyToTemp { source: "precious.txt".to_string() });
    for action in &actions {
        match action {
            Action::RunEditor { target, .. } => assert_ne!(target, "precious.txt"),
            Action::DeleteTemp { target } => assert_ne!(target, "precious.txt"),
            _ => {},
        }
    }
    assert_eq!(
        state,
        SessionState::Done {
            result: Ok(EditOutcome::Text("rewritten by the editor".to_string())),
            cleanup_warning: false,
        }
    );
}

#[test]
fn inplace_session_edits_the_file_and_returns_no_text() {
    // The editor stub overwrites the file with "xyz" and exits 0; the file
    // itself holds the result, so the outcome is the bare completion marker.
    let (state, first) = start(scrawl::edit("config.ini"), Some("stub".to_string()));
    match &first {
        Action::RunEditor { cmd, target } => {
            assert_eq!(cmd.program, "stub");
            assert_eq!(target, "config.ini");
        },
        other => panic!("expected the editor launch, got {:?}", other),
    }

    let (state, action) = step(state, Event::EditorExited { code: 0 });
    assert_eq!(action, Action::ReadBack { target: "config.ini".to_string() });

    let (state, action) = step(state, Event::ReadDone { text: "xyz".to_string() });
    assert_eq!(action, Action::Finish);
    assert_eq!(
        state,
        SessionState::Done { result: Ok(EditOutcome::InPlaceDone), cleanup_warning: false }
    );
}

#[test]
fn editor_exit_code_one_fails_and_still_disposes() {
    let (actions, state) = drive(
        start(scrawl::with("Hello World!"), None),
        vec![
            Event::TempCreated { path: "scratch-3".to_string() },
            Event::EditorExited { code: 1 },
            Event::Deleted,
        ],
    );
    assert!(actions.contains(&Action::DeleteTemp { target: "scratch-3".to_string() }));
    assert_eq!(
        state,
        SessionState::Done {
            result: Err(ScrawlError::EditorExit { code: 1 }),
            cleanup_warning: false,
        }
    );
}

#[test]
fn unlaunchable_editor_fails_and_still_disposes() {
    let (actions, state) = drive(
        start(scrawl::new(), None),
        vec![
            Event::TempCreated { path: "scratch-4".to_string() },
            Event::EditorNotLaunched,
            Event::Deleted,
        ],
    );
    assert!(actions.contains(&Action::DeleteTemp { target: "scratch-4".to_string() }));
    assert_eq!(
        state,
        SessionState::Done { result: Err(ScrawlError::EditorNotFound), cleanup_warning: false }
    );
}

#[test]
fn scratch_creation_failure_is_an_io_error() {
    let (_, state) = drive(start(scrawl::new(), None), vec![Event::TempFailed]);
    assert_eq!(
        state,
        SessionState::Done { result: Err(ScrawlError::Io), cleanup_warning: false }
    );
}

#[test]
fn unreadable_scratch_file_is_an_io_error_and_still_disposes() {
    let (actions, state) = drive(
        start(scrawl::new(), None),
        vec![
            Event::TempCreated { path: "scratch-5".to_string() },
            Event::EditorExited { code: 0 },
            Event::ReadIoFailed,
            Event::Deleted,
        ],
    );
    assert!(actions.contains(&Action::DeleteTemp { target: "scratch-5".to_string() }));
    assert_eq!(
        state,
        SessionState::Done { result: Err(ScrawlError::Io), cleanup_warning: false }
    );
}

#[test]
fn non_text_contents_are_an_encoding_error_and_still_dispose() {
    let (actions, state) = drive(
        start(scrawl::new(), None),
        vec![
            Event::TempCreated { path: "scratch-6".to_string() },
            Event::EditorExited { code: 0 },
            Event::ReadNotText,
            Event::Deleted,
        ],
    );
    assert!(actions.contains(&Action::DeleteTemp { target: "scratch-6".to_string() }));
    assert_eq!(
        state,
        SessionState::Done { result: Err(ScrawlError::Encoding), cleanup_warning: false }
    );
}

#[test]
fn failed_cleanup_after_success_is_only_a_warning() {
    let (_, state) = drive(
        start(scrawl::with("keep me"), None),
        vec![
            Event::TempCreated { path: "scratch-7".to_string() },
            Event::EditorExited { code: 0 },
            Event::ReadDone { text: "kept".to_string() },
            Event::DeleteFailed,
        ],
    );
    assert_eq!(
        state,
        SessionState::Done {
            result: Ok(EditOutcome::Text("kept".to_string())),
            cleanup_warning: true,
        }
    );
}

#[test]
fn failed_cleanup_never_replaces_an_earlier_failure() {
    let (_, state) = drive(
        start(scrawl::new(), None),
        vec![
            Event::TempCreated { path: "scratch-8".to_string() },
            Event::EditorExited { code: 3 },
            Event::DeleteFailed,
        ],
    );
    assert_eq!(
        state,
        SessionState::Done {
            result: Err(ScrawlError::EditorExit { code: 3 }),
            cleanup_warning: false,
        }
    );
}

#[test]
fn the_editor_override_beats_the_environment() {
    let (_, action) = {
        let (state, first) = start(
            scrawl::with("x").editor("custom-editor"),
            Some("nano".to_string()),
        );
        assert_eq!(first, Action::CreateTemp { initial: Some("x".to_string()) });
        step(state, Event::TempCreated { path: "scratch-o".to_string() })
    };
    match action {
        Action::RunEditor { cmd, target } => {
            assert_eq!(cmd.program, "custom-editor");
            assert!(cmd.args.is_empty());
            assert_eq!(target, "scratch-o");
        },
        other => panic!("expected the editor launch, got {:?}", other),
    }
}

#[test]
fn every_finished_run_disposes_its_scratch_file() {
    // Success and each failure entered after the scratch file exists: the
    // run always contains a deletion request for the created path.
    let paths_and_tails: Vec<Vec<Event>> = vec![
        vec![Event::EditorExited { code: 0 }, Event::ReadDone { text: "t".to_string() }, Event::Deleted],
        vec![Event::EditorExited { code: 0 }, Event::ReadIoFailed, Event::Deleted],
        vec![Event::EditorExited { code: 0 }, Event::ReadNotText, Event::DeleteFailed],
        vec![Event::EditorExited { code: 2 }, Event::Deleted],
        vec![Event::EditorNotLaunched, Event::DeleteFailed],
    ];
    for tail in paths_and_tails {
        let mut events = vec![Event::TempCreated { path: "scratch-9".to_string() }];
        events.extend(tail);
        let (actions, state) = drive(start(scrawl::with("x"), None), events);
        assert!(actions.contains(&Action::DeleteTemp { target: "scratch-9".to_string() }));
        assert!(matches!(state, SessionState::Done { .. }));
    }
}
