use pyrunner::channel::create_message_channel;
use pyrunner::error::PyRunnerError;
use pyrunner::listener::RecordingListener;
use pyrunner::message::{ErrorMessage, Message, ProgressMessage, ResultMessage};
use pyrunner::monitor::ProgressMonitor;
use pyrunner::receiver::ListenEnd;

#[test]
fn test_create_channel() {
    // A success stream: one progress event, then the terminal result.
    let (mut sender, mut receiver) = create_message_channel(RecordingListener::new()).unwrap();
    sender.send_progress_safe(ProgressMessage::new(1, 100));
    sender.send_result_safe(ResultMessage::new(1, 100));
    drop(sender);
    assert_eq!(receiver.start_listening(), ListenEnd::Terminal);
    let events = &receiver.listeners()[0].events;
    let progress_count = events
        .iter()
        .filter(|m| matches!(m, Message::Progress(_)))
        .count();
    let result_count = events
        .iter()
        .filter(|m| matches!(m, Message::Result(_)))
        .count();
    assert_eq!(progress_count, 1);
    assert_eq!(result_count, 1);

    // A failure stream on a fresh channel: the terminal error alone.
    let (mut sender, mut receiver) = create_message_channel(RecordingListener::new()).unwrap();
    sender.send_error_safe(ErrorMessage::new(9999, "test error".to_string()));
    drop(sender);
    assert_eq!(receiver.start_listening(), ListenEnd::Terminal);
    let events = &receiver.listeners()[0].events;
    let error_count = events
        .iter()
        .filter(|m| matches!(m, Message::Error(_)))
        .count();
    assert_eq!(error_count, 1);
}

#[test]
fn test_receiver_stops_at_first_terminal() {
    // Messages sent after a terminal one are never dispatched to a
    // listener: the terminal message is the last one observed.
    let (mut sender, mut receiver) = create_message_channel(RecordingListener::new()).unwrap();
    sender.send_progress_safe(ProgressMessage::new(1, 2));
    sender.send_result_safe(ResultMessage::new(0, 0));
    sender.send_progress_safe(ProgressMessage::new(2, 2));
    sender.send_error_safe(ErrorMessage::new(1, "late".to_string()));
    drop(sender);
    assert_eq!(receiver.start_listening(), ListenEnd::Terminal);
    let events = &receiver.listeners()[0].events;
    assert_eq!(events.len(), 2);
    assert!(matches!(events[0], Message::Progress(_)));
    assert!(matches!(events[1], Message::Result(_)));
}

#[test]
fn test_receiver_drains_without_listeners() {
    // A receiver with no registered listeners still drains the channel to
    // its terminal message and returns.
    let monitor: ProgressMonitor<RecordingListener> = ProgressMonitor::new().unwrap();
    let (mut sender, mut receiver) = monitor.split();
    assert_eq!(receiver.listeners().len(), 0);
    sender.send_progress_safe(ProgressMessage::new(1, 3));
    sender.send_progress_safe(ProgressMessage::new(2, 3));
    sender.send_result_safe(ResultMessage::new(4, 2000));
    drop(sender);
    assert_eq!(receiver.start_listening(), ListenEnd::Terminal);
}

#[test]
fn test_receiver_disconnect_without_terminal() {
    // When every sender is gone and no terminal message was sent, the loop
    // ends with the normal-shutdown reason.
    let (mut sender, mut receiver) = create_message_channel(RecordingListener::new()).unwrap();
    sender.send_progress_safe(ProgressMessage::new(1, 0));
    drop(sender);
    assert_eq!(receiver.start_listening(), ListenEnd::Disconnected);
    let events = &receiver.listeners()[0].events;
    assert_eq!(events.len(), 1);
    assert!(matches!(events[0], Message::Progress(_)));
}

#[test]
fn test_indeterminate_progress_is_not_completion() {
    // size == 0 means the total is unknown; such progress — even 0 of 0 —
    // must not be taken for completion by the dispatch loop or a listener.
    let (mut sender, mut receiver) = create_message_channel(RecordingListener::new()).unwrap();
    sender.send_task_started(1);
    sender.send_progress_safe(ProgressMessage::new(5, 0));
    sender.send_task_completed(1);
    drop(sender);
    assert_eq!(receiver.start_listening(), ListenEnd::Terminal);
    let events = &receiver.listeners()[0].events;
    assert_eq!(events.len(), 3);
    assert!(matches!(events[0], Message::Progress(ProgressMessage { done: 0, size: 0 })));
    assert!(matches!(events[1], Message::Progress(ProgressMessage { done: 5, size: 0 })));
    assert!(matches!(events[2], Message::Result(_)));
}

#[test]
fn test_try_recv_timeout_and_close() {
    let (mut sender, receiver) = create_message_channel(RecordingListener::new()).unwrap();
    sender.send_progress_safe(ProgressMessage::new(2, 4));
    let got = receiver.try_recv_timeout(200).unwrap();
    match got {
        Message::Progress(p) => {
            assert_eq!(p.done, 2);
            assert_eq!(p.size, 4);
        }
        _ => panic!("expected a Progress message"),
    }
    // An empty wait reports the retryable timeout kind.
    let err = receiver.try_recv_timeout(1).unwrap_err();
    assert!(matches!(err, PyRunnerError::Timeout { .. }));
    assert!(err.is_retryable());
    // After the last sender is dropped the channel reports closed.
    drop(sender);
    let err = receiver.try_recv_timeout(200).unwrap_err();
    assert!(matches!(err, PyRunnerError::ChannelClosed));
    assert_eq!(err.error_code(), 8003);
}

#[test]
fn test_recv_and_try_recv() {
    let (mut sender, receiver) = create_message_channel(RecordingListener::new()).unwrap();
    // Nothing queued yet: try_recv reports the retryable timeout kind.
    let err = receiver.try_recv().unwrap_err();
    assert!(matches!(err, PyRunnerError::Timeout { .. }));
    sender.send_progress_safe(ProgressMessage::new(3, 9));
    match receiver.try_recv().unwrap() {
        Message::Progress(p) => assert_eq!((p.done, p.size), (3, 9)),
        _ => panic!("expected a Progress message"),
    }
    sender.send_result_safe(ResultMessage::new(2, 40));
    // A queued message satisfies the blocking receive at once.
    match receiver.recv().unwrap() {
        Message::Result(r) => assert_eq!((r.pages, r.words), (2, 40)),
        _ => panic!("expected a Result message"),
    }
    drop(sender);
    assert!(matches!(receiver.recv().unwrap_err(), PyRunnerError::ChannelClosed));
}

#[test]
fn test_poll_budget_bounds_a_session() {
    // With a finite poll budget a session ends even though a sender is
    // still alive and silent.
    let (sender, receiver) = create_message_channel(RecordingListener::new()).unwrap();
    let mut receiver = receiver.with_timeout(1).with_poll_budget(3);
    assert_eq!(receiver.start_listening(), ListenEnd::BudgetSpent);
    drop(sender);
}

#[test]
fn test_sender_clone_feeds_same_receiver() {
    let (mut sender, mut receiver) = create_message_channel(RecordingListener::new()).unwrap();
    let mut clone = sender.clone();
    clone.send_progress_safe(ProgressMessage::new(1, 2));
    sender.send_result_safe(ResultMessage::new(0, 0));
    drop(sender);
    drop(clone);
    assert_eq!(receiver.start_listening(), ListenEnd::Terminal);
    assert_eq!(receiver.listeners()[0].events.len(), 2);
}
