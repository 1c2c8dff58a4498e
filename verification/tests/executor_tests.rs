use pyrunner::channel::create_message_channel;
use pyrunner::error::PyRunnerError;
use pyrunner::executor::{process_child_run, process_parent_finish, TaskExecutor, WaitOutcome};
use pyrunner::job::{FailJob, StepsJob};
use pyrunner::listener::RecordingListener;
use pyrunner::message::Message;
use pyrunner::receiver::ListenEnd;
use pyrunner::sender::MessageSender;

struct PanicJob;

impl pyrunner::job::Job for PanicJob {
    fn run(&self, _sender: &mut MessageSender, _task_id: u64) -> Result<(), PyRunnerError> {
        panic!("kaboom");
    }
}

#[test]
fn test_pool_failure_still_emits_terminal() {
    // Even when the pool loses the work (the task panicked), exactly one
    // terminal Error is emitted and the failure is returned to the caller.
    let (mut sender, mut receiver) = create_message_channel(RecordingListener::new()).unwrap();
    let executor = TaskExecutor::new_thread(PanicJob);
    let err = executor.execute(3, &mut sender).unwrap_err();
    assert_eq!(err.error_code(), 1001);
    drop(sender);
    assert_eq!(receiver.start_listening(), ListenEnd::Terminal);
    let events = &receiver.listeners()[0].events;
    assert_eq!(events.len(), 1);
    match &events[0] {
        Message::Error(e) => assert_eq!(e.error_code, 1001),
        _ => panic!("expected an Error message"),
    }
}

#[test]
fn test_thread_steps_scenario() {
    // A thread-strategy task that reports five steps and succeeds: the
    // listener records five progress events followed by one result, and
    // the executor returns Ok.
    let (mut sender, mut receiver) = create_message_channel(RecordingListener::new()).unwrap();
    let executor = TaskExecutor::new_thread(StepsJob::new(5));
    let result = executor.execute(1, &mut sender);
    assert!(result.is_ok());
    drop(sender);
    assert_eq!(receiver.start_listening(), ListenEnd::Terminal);
    let events = &receiver.listeners()[0].events;
    assert_eq!(events.len(), 6);
    for (i, event) in events.iter().take(5).enumerate() {
        match event {
            Message::Progress(p) => {
                assert_eq!(p.done, (i + 1) as u64);
                assert_eq!(p.size, 5);
            }
            _ => panic!("expected a Progress message"),
        }
    }
    assert!(matches!(events[5], Message::Result(_)));
}

#[test]
fn test_thread_failing_scenario() {
    // A thread-strategy task whose work fails with "boom": exactly one
    // Error message carrying that text and code 1001, and the executor
    // returns the failure.
    let (mut sender, mut receiver) = create_message_channel(RecordingListener::new()).unwrap();
    let executor = TaskExecutor::new_thread(FailJob::new("boom".to_string()));
    let result = executor.execute(2, &mut sender);
    let err = result.unwrap_err();
    assert_eq!(err.error_code(), 1001);
    assert_eq!(err.message_text(), "boom");
    drop(sender);
    assert_eq!(receiver.start_listening(), ListenEnd::Terminal);
    let events = &receiver.listeners()[0].events;
    assert_eq!(events.len(), 1);
    match &events[0] {
        Message::Error(e) => {
            assert_eq!(e.error_code, 1001);
            assert_eq!(e.error_message, "boom");
        }
        _ => panic!("expected an Error message"),
    }
}

#[test]
fn test_parent_classifies_exit_seven() {
    // The parent of a process-strategy task whose child exited with
    // status 7 returns an execution failure and emits a terminal Error
    // referencing the exit code; no Result message is emitted.
    let (mut sender, mut receiver) = create_message_channel(RecordingListener::new()).unwrap();
    let result = process_parent_finish(&mut sender, 9, WaitOutcome::Exited(7));
    let err = result.unwrap_err();
    assert!(matches!(err, PyRunnerError::TaskExecutionFailed { .. }));
    assert_eq!(err.error_code(), 1001);
    assert_eq!(err.message_text(), "task 9: child exited with status 7");
    drop(sender);
    assert_eq!(receiver.start_listening(), ListenEnd::Terminal);
    let events = &receiver.listeners()[0].events;
    assert_eq!(events.len(), 1);
    match &events[0] {
        Message::Error(e) => {
            assert_eq!(e.error_code, 1001);
            assert!(e.error_message.contains('7'));
        }
        _ => panic!("expected an Error message"),
    }
    assert!(!events.iter().any(|m| matches!(m, Message::Result(_))));
}

#[test]
fn test_parent_classifies_outcomes() {
    let (mut sender, _receiver) = create_message_channel(RecordingListener::new()).unwrap();
    assert!(process_parent_finish(&mut sender, 1, WaitOutcome::Exited(0)).is_ok());
    let err = process_parent_finish(&mut sender, 1, WaitOutcome::Signaled(9)).unwrap_err();
    assert_eq!(err.message_text(), "task 1: child terminated by signal 9");
    let err =
        process_parent_finish(&mut sender, 1, WaitOutcome::WaitFailed("ECHILD".to_string()))
            .unwrap_err();
    assert_eq!(
        err.message_text(),
        "task 1: failed to wait for the child: ECHILD"
    );
}

#[test]
fn test_child_success_emits_no_terminal() {
    // On the success path the child stays silent about the outcome — the
    // parent is the sole emitter of the terminal message — and reports
    // exit status 0.
    let (mut sender, mut receiver) = create_message_channel(RecordingListener::new()).unwrap();
    let code = process_child_run(&StepsJob::new(3), &mut sender, 4);
    assert_eq!(code, 0);
    drop(sender);
    assert_eq!(receiver.start_listening(), ListenEnd::Disconnected);
    let events = &receiver.listeners()[0].events;
    assert_eq!(events.len(), 3);
    assert!(events.iter().all(|m| matches!(m, Message::Progress(_))));
}

#[test]
fn test_child_failure_emits_error_and_exit_one() {
    let (mut sender, mut receiver) = create_message_channel(RecordingListener::new()).unwrap();
    let code = process_child_run(&FailJob::new("lost".to_string()), &mut sender, 4);
    assert_eq!(code, 1);
    drop(sender);
    assert_eq!(receiver.start_listening(), ListenEnd::Terminal);
    let events = &receiver.listeners()[0].events;
    assert_eq!(events.len(), 1);
    match &events[0] {
        Message::Error(e) => assert_eq!(e.error_message, "lost"),
        _ => panic!("expected an Error message"),
    }
}

#[test]
fn test_process_strategy_in_place_fallback() {
    // Where no isolation primitive is available the process strategy runs
    // the work in place, with the same observable stream.
    let (mut sender, mut receiver) = create_message_channel(RecordingListener::new()).unwrap();
    let executor = TaskExecutor::new_process(StepsJob::new(3));
    assert!(executor.execute(5, &mut sender).is_ok());
    drop(sender);
    assert_eq!(receiver.start_listening(), ListenEnd::Terminal);
    let events = &receiver.listeners()[0].events;
    assert_eq!(events.len(), 4);
    assert!(matches!(events[3], Message::Result(_)));
}

#[test]
fn test_executor_reusable_across_tasks() {
    // The executor owns only the work, so one value can run a second task
    // on a fresh channel.
    let executor = TaskExecutor::new_thread(StepsJob::new(2));
    for task_id in [1u64, 2] {
        let (mut sender, mut receiver) =
            create_message_channel(RecordingListener::new()).unwrap();
        assert!(executor.execute(task_id, &mut sender).is_ok());
        drop(sender);
        assert_eq!(receiver.start_listening(), ListenEnd::Terminal);
        assert_eq!(receiver.listeners()[0].events.len(), 3);
    }
}

#[test]
fn test_monitor_records_stream() {
    let mut monitor: pyrunner::monitor::ProgressMonitor<RecordingListener> =
        pyrunner::monitor::ProgressMonitor::new().unwrap();
    monitor.add_listener(RecordingListener::new());
    let (mut sender, mut receiver) = monitor.split();
    let executor = TaskExecutor::new_process(StepsJob::new(2));
    assert!(executor.execute(6, &mut sender).is_ok());
    drop(sender);
    assert_eq!(receiver.start_listening(), ListenEnd::Terminal);
    assert_eq!(receiver.listeners()[0].events.len(), 3);
}
