use hiramu_cli::stream::{StreamAction, StreamEvent, StreamState};

#[test]
fn text_is_written_until_the_stream_ends() {
    let mut s = StreamState::Open;
    assert!(matches!(s.on_event(StreamEvent::Text("Par".to_string())), StreamAction::Write(t) if t == "Par"));
    assert!(matches!(s.on_event(StreamEvent::NoText), StreamAction::Wait));
    assert!(matches!(s.on_event(StreamEvent::Text("is".to_string())), StreamAction::Write(t) if t == "is"));
    assert_eq!(s, StreamState::Open);
    assert!(matches!(s.on_event(StreamEvent::End), StreamAction::Finish));
    assert_eq!(s, StreamState::Completed);
    assert!(matches!(s.on_event(StreamEvent::Text("late".to_string())), StreamAction::Wait));
    assert_eq!(s, StreamState::Completed);
}

#[test]
fn transport_failure_ends_the_response() {
    let mut s = StreamState::Open;
    assert!(matches!(s.on_event(StreamEvent::Failure("reset".to_string())), StreamAction::Abort(d) if d == "reset"));
    assert_eq!(s, StreamState::Failed);
    assert!(matches!(s.on_event(StreamEvent::Text("x".to_string())), StreamAction::Wait));
    assert!(matches!(s.on_event(StreamEvent::End), StreamAction::Wait));
    assert_eq!(s, StreamState::Failed);
}
