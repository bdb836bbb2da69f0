use stream_q::errors::StreamError;
use stream_q::events::InboundEvent;
use stream_q::iterator::{ChatEventIterator, PullState, PullStep, Received};
use stream_q::output::Output;
use stream_q::recorded::RecordedStream;

fn chunk(text: &str) -> Received {
    Received::Event(InboundEvent::TextChunk { system_message: Some(text.to_string()) })
}

fn metadata_event(c: Option<&str>, u: Option<&str>, s: Option<&str>) -> Received {
    Received::Event(InboundEvent::Metadata {
        conversation_id: c.map(|x| x.to_string()),
        user_message_id: u.map(|x| x.to_string()),
        system_message_id: s.map(|x| x.to_string()),
    })
}

fn unrecognized() -> Received {
    Received::Event(InboundEvent::Unrecognized)
}

fn receive_error(cause: &str) -> Received {
    Received::Error { cause: cause.to_string() }
}

fn text(content: &str) -> PullStep {
    PullStep::Item(Output::Text { content: content.to_string() })
}

fn metadata(c: &str, u: &str, s: &str) -> PullStep {
    PullStep::Item(Output::Metadata {
        conversation_id: c.to_string(),
        user_message_id: u.to_string(),
        system_message_id: s.to_string(),
    })
}

fn iterator_over(items: Vec<Received>) -> ChatEventIterator<RecordedStream> {
    ChatEventIterator::new(RecordedStream::from_items(items))
}

#[test]
fn outputs_come_in_stream_order() {
    let mut it = iterator_over(vec![
        chunk("a"),
        unrecognized(),
        chunk("b"),
        metadata_event(Some("c"), Some("u"), Some("s")),
        Received::EndOfStream,
    ]);
    assert_eq!(it.pull(), text("a"));
    assert_eq!(it.pull(), text("b"));
    assert_eq!(it.pull(), metadata("c", "u", "s"));
    assert_eq!(it.pull(), PullStep::Exhausted);
}

#[test]
fn new_iterator_is_idle() {
    let it = iterator_over(vec![chunk("a")]);
    assert_eq!(it.state(), PullState::Idle);
    assert!(!it.is_terminal());
}

#[test]
fn iterator_is_idle_after_an_output() {
    let mut it = iterator_over(vec![chunk("a"), chunk("b")]);
    assert_eq!(it.pull(), text("a"));
    assert_eq!(it.state(), PullState::Idle);
    assert!(!it.is_terminal());
}

#[test]
fn exhaustion_is_repeated() {
    let mut it = iterator_over(vec![chunk("only"), Received::EndOfStream]);
    assert_eq!(it.pull(), text("only"));
    for _ in 0..5 {
        assert_eq!(it.pull(), PullStep::Exhausted);
        assert_eq!(it.state(), PullState::Completed);
        assert!(it.is_terminal());
    }
}

#[test]
fn stream_that_runs_out_is_exhausted() {
    let mut it = iterator_over(vec![chunk("only")]);
    assert_eq!(it.pull(), text("only"));
    assert_eq!(it.pull(), PullStep::Exhausted);
    assert_eq!(it.pull(), PullStep::Exhausted);
    assert_eq!(it.pull(), PullStep::Exhausted);
}

#[test]
fn empty_stream_is_exhausted_at_once() {
    let mut it = iterator_over(Vec::new());
    assert_eq!(it.pull(), PullStep::Exhausted);
    assert_eq!(it.state(), PullState::Completed);
}

#[test]
fn exhausted_iterator_reads_nothing_more() {
    let mut it = iterator_over(vec![Received::EndOfStream, chunk("late"), chunk("later")]);
    assert_eq!(it.pull(), PullStep::Exhausted);
    assert_eq!(it.handle_mut().remaining(), 2);
    for _ in 0..3 {
        assert_eq!(it.pull(), PullStep::Exhausted);
        assert_eq!(it.handle_mut().remaining(), 2);
    }
}

#[test]
fn receive_error_fails_the_iterator_for_good() {
    let mut it = iterator_over(vec![chunk("a"), receive_error("connection reset"), chunk("b")]);
    assert_eq!(it.pull(), text("a"));
    let failure = StreamError::Receive { cause: "connection reset".to_string() };
    for _ in 0..4 {
        assert_eq!(it.pull(), PullStep::Failed(failure.clone()));
        assert_eq!(it.state(), PullState::Failed(failure.clone()));
        assert!(it.is_terminal());
        assert_eq!(it.handle_mut().remaining(), 1);
    }
}

#[test]
fn outputs_before_a_failure_stay_delivered() {
    let mut it = iterator_over(vec![chunk("a"), chunk("b"), receive_error("boom")]);
    let (outputs, end) = it.drain();
    assert_eq!(
        outputs,
        vec![Output::Text { content: "a".to_string() }, Output::Text { content: "b".to_string() }]
    );
    assert_eq!(end, PullStep::Failed(StreamError::Receive { cause: "boom".to_string() }));
}

#[test]
fn malformed_metadata_fails_the_iterator_for_good() {
    let mut it = iterator_over(vec![
        chunk("a"),
        metadata_event(Some("conv1"), Some("u1"), None),
        chunk("b"),
        Received::EndOfStream,
    ]);
    assert_eq!(it.pull(), text("a"));
    assert_eq!(it.pull(), PullStep::Failed(StreamError::MalformedMetadata));
    assert_eq!(it.state(), PullState::Failed(StreamError::MalformedMetadata));
    for _ in 0..3 {
        assert_eq!(it.pull(), PullStep::Failed(StreamError::MalformedMetadata));
        assert_eq!(it.state(), PullState::Failed(StreamError::MalformedMetadata));
    }
}

#[test]
fn metadata_missing_any_identifier_fails_the_pull() {
    for event in [
        metadata_event(None, Some("u"), Some("s")),
        metadata_event(Some("c"), None, Some("s")),
        metadata_event(Some("c"), Some("u"), None),
        metadata_event(None, None, None),
    ] {
        let mut it = iterator_over(vec![event, chunk("after")]);
        assert_eq!(it.pull(), PullStep::Failed(StreamError::MalformedMetadata));
        assert_eq!(it.pull(), PullStep::Failed(StreamError::MalformedMetadata));
    }
}

#[test]
fn skipped_events_are_transparent() {
    for skipped in [0usize, 1, 2, 7, 100] {
        let mut items = vec![chunk("first")];
        for _ in 0..skipped {
            items.push(unrecognized());
        }
        items.push(chunk("second"));
        let mut it = iterator_over(items);
        assert_eq!(it.pull(), text("first"));
        assert_eq!(it.pull(), text("second"));
        assert_eq!(it.pull(), PullStep::Exhausted);
    }
}

#[test]
fn skipped_events_before_the_end_give_exhaustion() {
    let mut it = iterator_over(vec![unrecognized(), unrecognized(), unrecognized()]);
    assert_eq!(it.pull(), PullStep::Exhausted);
    assert_eq!(it.state(), PullState::Completed);
}

#[test]
fn skipped_events_before_an_error_give_the_failure() {
    let mut it = iterator_over(vec![unrecognized(), unrecognized(), receive_error("late failure")]);
    assert_eq!(it.pull(), PullStep::Failed(StreamError::Receive { cause: "late failure".to_string() }));
}

#[test]
fn skipped_events_do_not_end_the_stream() {
    let mut it = iterator_over(vec![unrecognized(), chunk("still here")]);
    assert_eq!(it.pull(), text("still here"));
    assert!(!it.is_terminal());
}

#[test]
fn absent_text_gives_empty_text() {
    let mut it = iterator_over(vec![Received::Event(InboundEvent::TextChunk { system_message: None })]);
    assert_eq!(it.pull(), text(""));
}

#[test]
fn two_pulls_read_different_events() {
    let mut it = iterator_over(vec![chunk("one"), chunk("two"), chunk("three")]);
    assert_eq!(it.handle_mut().remaining(), 3);
    let first = it.pull();
    assert_eq!(it.handle_mut().remaining(), 2);
    let second = it.pull();
    assert_eq!(it.handle_mut().remaining(), 1);
    assert_eq!(first, text("one"));
    assert_eq!(second, text("two"));
    assert_ne!(first, second);
}

#[test]
fn pull_takes_the_skipped_events_with_it() {
    let mut it = iterator_over(vec![unrecognized(), unrecognized(), chunk("x"), unrecognized(), chunk("y")]);
    assert_eq!(it.pull(), text("x"));
    assert_eq!(it.handle_mut().remaining(), 2);
    assert_eq!(it.pull(), text("y"));
    assert_eq!(it.handle_mut().remaining(), 0);
}

#[test]
fn second_pull_in_flight_is_rejected() {
    let mut it = iterator_over(vec![chunk("one"), chunk("two")]);
    assert_eq!(it.begin_pull(), PullStep::Receive);
    assert_eq!(it.state(), PullState::Pulling);
    assert_eq!(it.begin_pull(), PullStep::Rejected);
    assert_eq!(it.state(), PullState::Pulling);
    assert_eq!(it.pull(), PullStep::Rejected);
    assert_eq!(it.handle_mut().remaining(), 2);
    // The pull in flight still gets its event.
    let item = it.handle_mut().receive();
    assert_eq!(it.on_received(item), text("one"));
    assert_eq!(it.state(), PullState::Idle);
    assert_eq!(it.pull(), text("two"));
}

#[test]
fn item_without_pull_is_rejected() {
    let mut it = iterator_over(Vec::new());
    assert_eq!(it.on_received(chunk("unasked")), PullStep::Rejected);
    assert_eq!(it.state(), PullState::Idle);
    assert_eq!(it.pull(), PullStep::Exhausted);
    assert_eq!(it.on_received(chunk("too late")), PullStep::Rejected);
    assert_eq!(it.state(), PullState::Completed);
}

#[test]
fn item_after_failure_is_rejected() {
    let mut it = iterator_over(vec![receive_error("down")]);
    let failure = StreamError::Receive { cause: "down".to_string() };
    assert_eq!(it.pull(), PullStep::Failed(failure.clone()));
    assert_eq!(it.on_received(chunk("ignored")), PullStep::Rejected);
    assert_eq!(it.state(), PullState::Failed(failure.clone()));
    assert_eq!(it.begin_pull(), PullStep::Failed(failure));
}

#[test]
fn steps_drive_a_pull_by_hand() {
    let mut it = ChatEventIterator::new(());
    assert_eq!(it.begin_pull(), PullStep::Receive);
    assert_eq!(it.on_received(unrecognized()), PullStep::Receive);
    assert_eq!(it.state(), PullState::Pulling);
    assert_eq!(it.on_received(unrecognized()), PullStep::Receive);
    assert_eq!(it.on_received(chunk("a")), text("a"));
    assert_eq!(it.state(), PullState::Idle);
    assert_eq!(it.begin_pull(), PullStep::Receive);
    assert_eq!(it.on_received(metadata_event(Some("c"), Some("u"), Some("s"))), metadata("c", "u", "s"));
    assert_eq!(it.begin_pull(), PullStep::Receive);
    assert_eq!(it.on_received(Received::EndOfStream), PullStep::Exhausted);
    assert_eq!(it.state(), PullState::Completed);
    assert_eq!(it.begin_pull(), PullStep::Exhausted);
    assert_eq!(it.begin_pull(), PullStep::Exhausted);
    assert_eq!(it.begin_pull(), PullStep::Exhausted);
}

#[test]
fn steps_fail_on_a_receive_error() {
    let mut it = ChatEventIterator::new(());
    assert_eq!(it.begin_pull(), PullStep::Receive);
    let failure = StreamError::Receive { cause: "timeout".to_string() };
    assert_eq!(it.on_received(receive_error("timeout")), PullStep::Failed(failure.clone()));
    assert_eq!(it.state(), PullState::Failed(failure.clone()));
    for _ in 0..3 {
        assert_eq!(it.begin_pull(), PullStep::Failed(failure.clone()));
    }
}

#[test]
fn steps_fail_on_malformed_metadata() {
    let mut it = ChatEventIterator::new(());
    assert_eq!(it.begin_pull(), PullStep::Receive);
    assert_eq!(
        it.on_received(metadata_event(Some("c"), Some("u"), None)),
        PullStep::Failed(StreamError::MalformedMetadata)
    );
    assert_eq!(it.state(), PullState::Failed(StreamError::MalformedMetadata));
    for _ in 0..3 {
        assert_eq!(it.begin_pull(), PullStep::Failed(StreamError::MalformedMetadata));
    }
}

#[test]
fn abandoned_pull_leaves_the_iterator_idle() {
    let mut it = iterator_over(vec![chunk("a")]);
    assert_eq!(it.begin_pull(), PullStep::Receive);
    it.abandon_pull();
    assert_eq!(it.state(), PullState::Idle);
    assert_eq!(it.handle_mut().remaining(), 1);
    assert_eq!(it.pull(), text("a"));
}

#[test]
fn abandon_changes_nothing_without_a_pull_in_flight() {
    let mut it = iterator_over(vec![chunk("a"), receive_error("x")]);
    it.abandon_pull();
    assert_eq!(it.state(), PullState::Idle);
    assert_eq!(it.pull(), text("a"));
    let failure = StreamError::Receive { cause: "x".to_string() };
    assert_eq!(it.pull(), PullStep::Failed(failure.clone()));
    it.abandon_pull();
    assert_eq!(it.state(), PullState::Failed(failure));

    let mut done = iterator_over(Vec::new());
    assert_eq!(done.pull(), PullStep::Exhausted);
    done.abandon_pull();
    assert_eq!(done.state(), PullState::Completed);
}

#[test]
fn drain_gives_all_outputs_and_the_end() {
    let mut it = iterator_over(vec![
        chunk("a"),
        unrecognized(),
        chunk("b"),
        metadata_event(Some("c"), Some("u"), Some("s")),
        Received::EndOfStream,
        chunk("never read"),
    ]);
    let (outputs, end) = it.drain();
    assert_eq!(
        outputs,
        vec![
            Output::Text { content: "a".to_string() },
            Output::Text { content: "b".to_string() },
            Output::Metadata {
                conversation_id: "c".to_string(),
                user_message_id: "u".to_string(),
                system_message_id: "s".to_string(),
            },
        ]
    );
    assert_eq!(end, PullStep::Exhausted);
    assert_eq!(it.state(), PullState::Completed);
    assert_eq!(it.handle_mut().remaining(), 1);
}

#[test]
fn drain_of_a_terminal_iterator_gives_nothing() {
    let mut it = iterator_over(vec![Received::EndOfStream, chunk("a")]);
    assert_eq!(it.pull(), PullStep::Exhausted);
    let (outputs, end) = it.drain();
    assert_eq!(outputs, Vec::<Output>::new());
    assert_eq!(end, PullStep::Exhausted);
}

#[test]
fn drain_is_rejected_while_a_pull_is_in_flight() {
    let mut it = iterator_over(vec![chunk("a")]);
    assert_eq!(it.begin_pull(), PullStep::Receive);
    let (outputs, end) = it.drain();
    assert_eq!(outputs, Vec::<Output>::new());
    assert_eq!(end, PullStep::Rejected);
    assert_eq!(it.handle_mut().remaining(), 1);
}

#[test]
fn recorded_stream_gives_its_items_in_order() {
    let mut stream = RecordedStream::new();
    assert_eq!(stream.remaining(), 0);
    stream.push(chunk("a"));
    stream.push(receive_error("e"));
    stream.push(unrecognized());
    assert_eq!(stream.remaining(), 3);
    assert_eq!(stream.receive(), chunk("a"));
    assert_eq!(stream.receive(), receive_error("e"));
    assert_eq!(stream.remaining(), 1);
    assert_eq!(stream.receive(), unrecognized());
    assert_eq!(stream.receive(), Received::EndOfStream);
    assert_eq!(stream.receive(), Received::EndOfStream);
    assert_eq!(stream.remaining(), 0);
}

#[test]
fn recorded_stream_from_items_keeps_the_order() {
    let mut stream = RecordedStream::from_items(vec![chunk("1"), chunk("2"), chunk("3"), Received::EndOfStream]);
    assert_eq!(stream.remaining(), 4);
    assert_eq!(stream.receive(), chunk("1"));
    assert_eq!(stream.receive(), chunk("2"));
    assert_eq!(stream.receive(), chunk("3"));
    assert_eq!(stream.receive(), Received::EndOfStream);
    assert_eq!(stream.remaining(), 0);
}

#[test]
fn into_handle_gives_the_stream_back() {
    let mut it = iterator_over(vec![chunk("a"), chunk("b")]);
    assert_eq!(it.pull(), text("a"));
    let mut stream = it.into_handle();
    assert_eq!(stream.remaining(), 1);
    assert_eq!(stream.receive(), chunk("b"));
}

#[test]
fn step_and_state_clones_are_equal() {
    let steps = vec![
        PullStep::Receive,
        text("a"),
        PullStep::Exhausted,
        PullStep::Failed(StreamError::Receive { cause: "c".to_string() }),
        PullStep::Rejected,
    ];
    for step in &steps {
        assert_eq!(&step.clone(), step);
    }
    assert_ne!(steps[0].clone(), steps[4]);
    let states = vec![
        PullState::Idle,
        PullState::Pulling,
        PullState::Completed,
        PullState::Failed(StreamError::MalformedMetadata),
    ];
    for state in &states {
        assert_eq!(&state.clone(), state);
    }
    assert_ne!(states[0].clone(), states[1]);
    let items = vec![chunk("a"), Received::EndOfStream, receive_error("e")];
    for item in &items {
        assert_eq!(&item.clone(), item);
    }
}
