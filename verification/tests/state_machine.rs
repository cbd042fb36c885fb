use pesto::state::{Action, Event, FrameOutcome, RunState};

fn analysis(text: &str) -> Event {
    Event::Analysis { output: text.to_string() }
}

#[test]
fn happy_path_reaches_running_and_stays() {
    let s = RunState::initial();
    assert!(matches!(s, RunState::Uninitialized));
    assert_eq!(s.next_action(), Action::CheckEntryScript);

    let s = s.step(Event::EntryScript { found: true });
    assert!(matches!(s, RunState::Validating));
    assert_eq!(s.next_action(), Action::RunValidation);

    let s = s.step(analysis("Total: 0 warnings / 0 errors in 1 file\n"));
    assert!(matches!(s, RunState::Executing));
    assert_eq!(s.next_action(), Action::ExecuteEntryScript);

    let mut s = s.step(Event::Execution { failure: None });
    assert!(matches!(s, RunState::Running));
    assert_eq!(s.next_action(), Action::CallUpdate);

    for _ in 0..10 {
        s = s.step(Event::Frame { outcome: FrameOutcome::UpdateOk });
        assert!(matches!(s, RunState::Running));
    }
}

#[test]
fn missing_entry_script_is_fatal() {
    let s = RunState::initial();
    let s = s.step(Event::EntryScript { found: false });
    match &s {
        RunState::Error { message } => assert_eq!(message, "main.lua not found."),
        other => panic!("expected error state, got {:?}", other),
    }
    assert_eq!(s.next_action(), Action::ShowError);
    // The analyzer is never asked for: the machine only ever asks to render.
    let s = s.step(analysis("0 warnings / 0 errors"));
    match &s {
        RunState::Error { message } => assert_eq!(message, "main.lua not found."),
        other => panic!("expected error state, got {:?}", other),
    }
    assert_eq!(s.next_action(), Action::ShowError);
}

#[test]
fn dirty_analysis_carries_full_output() {
    let raw = "Checking main.lua  2 warnings\n\nTotal: 2 warnings / 1 error in 1 file\n";
    let s = RunState::initial().step(Event::EntryScript { found: true }).step(analysis(raw));
    match &s {
        RunState::Error { message } => assert_eq!(message, raw),
        other => panic!("expected error state, got {:?}", other),
    }
    // The entry script is never executed afterwards.
    let s = s.step(Event::Execution { failure: None });
    assert!(matches!(s, RunState::Error { .. }));
    assert_eq!(s.next_action(), Action::ShowError);
}

#[test]
fn clean_analysis_proceeds_to_execution() {
    let s = RunState::initial().step(Event::EntryScript { found: true }).step(analysis(
        "no summary here at all",
    ));
    assert!(matches!(s, RunState::Executing));
}

#[test]
fn entry_script_load_failure_is_fatal() {
    let s = RunState::initial()
        .step(Event::EntryScript { found: true })
        .step(analysis("0 warnings / 0 errors"))
        .step(Event::Execution { failure: Some("main.lua:1: syntax error".to_string()) });
    match &s {
        RunState::Error { message } => assert_eq!(message, "main.lua:1: syntax error"),
        other => panic!("expected error state, got {:?}", other),
    }
}

#[test]
fn missing_update_callback_is_fatal() {
    let s = RunState::initial()
        .step(Event::EntryScript { found: true })
        .step(analysis("0 warnings / 0 errors"))
        .step(Event::Execution { failure: None })
        .step(Event::Frame { outcome: FrameOutcome::UpdateMissing });
    match &s {
        RunState::Error { message } => assert_eq!(message, "Update function not found."),
        other => panic!("expected error state, got {:?}", other),
    }
}

#[test]
fn runtime_error_on_fifth_frame_freezes_the_host() {
    let mut s = RunState::initial()
        .step(Event::EntryScript { found: true })
        .step(analysis("0 warnings / 0 errors"))
        .step(Event::Execution { failure: None });
    for _ in 0..4 {
        s = s.step(Event::Frame { outcome: FrameOutcome::UpdateOk });
        assert!(matches!(s, RunState::Running));
    }
    s = s.step(Event::Frame {
        outcome: FrameOutcome::UpdateFailed {
            error: "main.lua:2: attempt to call a nil value".to_string(),
        },
    });
    match &s {
        RunState::Error { message } => {
            assert_eq!(message, "main.lua:2: attempt to call a nil value")
        }
        other => panic!("expected error state, got {:?}", other),
    }
    // Frame six onward: the error overlay only; further frames change nothing.
    s = s.step(Event::Frame { outcome: FrameOutcome::UpdateOk });
    match &s {
        RunState::Error { message } => {
            assert_eq!(message, "main.lua:2: attempt to call a nil value")
        }
        other => panic!("expected error state, got {:?}", other),
    }
}

#[test]
fn out_of_sequence_events_change_nothing() {
    let s = RunState::initial();
    let s = s.step(Event::Frame { outcome: FrameOutcome::UpdateOk });
    assert!(matches!(s, RunState::Uninitialized));
    let s = s.step(Event::Execution { failure: Some("ignored".to_string()) });
    assert!(matches!(s, RunState::Uninitialized));
}

#[test]
fn error_message_observer_reports_the_message() {
    let s = RunState::initial().step(Event::EntryScript { found: false });
    assert_eq!(s.error_message().map(|m| m.as_str()), Some("main.lua not found."));
    let r = RunState::initial();
    assert!(r.error_message().is_none());
}
