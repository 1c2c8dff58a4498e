//! The task executor: runs a unit of work either on a blocking-capable
//! worker pool (thread strategy) or in an isolated child process (process
//! strategy). On every path exactly one terminal message is emitted for the
//! work that ran here, and the same outcome is returned to the caller.
//!
//! Process isolation needs process-global primitives — duplicating the
//! process, waiting on the child, exiting it — which a host program drives.
//! Every decision in that dance is made here: `process_child_run` turns the
//! work's outcome into the child's exit status, and `process_parent_finish`
//! classifies how the child ended, emits the terminal message and builds
//! the returned outcome. Where no isolation primitive is available, the
//! process strategy degrades to running the work in place — a documented
//! parity compromise, not true isolation.
use vstd::prelude::*;
use vstd::string::StringExecFns;

use crate::digits::{i64_to_string, spec_dec, spec_dec_signed, u64_to_string};
use crate::error::{spec_error_code, spec_message_text, PyRunnerError};
use crate::job::Job;
use crate::message::{is_terminal, MsgView};
use crate::sender::MessageSender;
use crate::stream::{appended, progress_only, stream_wf};

verus! {

/// The terminal message of a task that succeeded.
pub open spec fn success_terminal() -> MsgView {
    MsgView::Result { pages: 0, words: 0 }
}

/// The terminal message carrying a failure.
pub open spec fn error_terminal(e: &PyRunnerError) -> MsgView {
    MsgView::Error { code: spec_error_code(e), text: spec_message_text(e) }
}

/// Runs the work to completion in the calling thread: the job's progress,
/// then exactly one terminal message matching the returned outcome.
pub fn run_job_to_completion<J: Job>(
    job: &J,
    sender: &mut MessageSender,
    task_id: u64,
) -> (r: Result<(), PyRunnerError>)
    ensures
        old(sender)@.is_prefix_of(final(sender)@),
        ({
            let app = appended(old(sender)@, final(sender)@);
            &&& stream_wf(app)
            &&& app.len() > 0
            &&& progress_only(app.drop_last())
            &&& match r {
                Ok(()) => app.last() == success_terminal(),
                Err(e) => app.last() == error_terminal(&e),
            }
        }),
{
    let r = job.run(sender, task_id);
    let ghost mid = sender@;
    match r {
        Ok(()) => {
            sender.send_task_completed(task_id);
            proof {
                lemma_terminal_append(old(sender)@, mid, sender@);
            }
            Ok(())
        },
        Err(e) => {
            sender.send_task_error(task_id, &e);
            proof {
                lemma_terminal_append(old(sender)@, mid, sender@);
            }
            Err(e)
        },
    }
}

/// Appending one message to a progress-only extension gives a stream whose
/// front is that extension and whose last message is the appended one.
proof fn lemma_terminal_append(base: Seq<MsgView>, mid: Seq<MsgView>, end: Seq<MsgView>)
    requires
        base.is_prefix_of(mid),
        progress_only(mid.skip(base.len() as int)),
        end == mid.push(end.last()),
        end.len() == mid.len() + 1,
    ensures
        base.is_prefix_of(end),
        appended(base, end) == appended(base, mid).push(end.last()),
        progress_only(appended(base, end).drop_last()),
        is_terminal(end.last()) ==> stream_wf(appended(base, end)),
{
    assert(end.subrange(0, base.len() as int) =~= base);
    assert(appended(base, end) =~= appended(base, mid).push(end.last()));
    assert(appended(base, end).drop_last() =~= appended(base, mid));
}

/// Runs the work to completion on an owned sender, as the worker pool
/// requires; the emissions and the outcome are those of
/// `run_job_to_completion`.
pub fn run_job_owned<J: Job>(job: &J, sender: MessageSender, task_id: u64) -> (r: Result<
    (),
    PyRunnerError,
>) {
    let mut s = sender;
    run_job_to_completion(job, &mut s, task_id)
}

/// How a dispatch to the worker pool ended.
pub enum PoolOutcome {
    /// The work ran to completion with this outcome.
    Completed(Result<(), PyRunnerError>),
    /// The pool lost the work (the task was aborted or panicked).
    JoinFailed(String),
    /// No worker pool could be brought up.
    PoolUnavailable(String),
}

/// Relies on tokio's Runtime::new, Runtime::spawn_blocking and
/// Runtime::block_on: dispatches the work onto a blocking-capable worker
/// pool and waits for it, reporting the work's own outcome, a lost task, or
/// a pool that could not be brought up.
#[verifier::external_body]
fn run_on_blocking_pool<J: Job + Send + Sync + 'static>(
    job: &std::sync::Arc<J>,
    sender: &MessageSender,
    task_id: u64,
) -> (r: PoolOutcome) {
    let job = job.clone();
    let sender = sender.clone();
    let work = move || crate::executor::run_job_owned(&*job, sender, task_id);
    match tokio::runtime::Runtime::new() {
        Ok(rt) => {
            let handle = rt.spawn_blocking(work);
            match rt.block_on(handle) {
                Ok(res) => PoolOutcome::Completed(res),
                Err(e) => PoolOutcome::JoinFailed(e.to_string()),
            }
        },
        Err(e) => PoolOutcome::PoolUnavailable(e.to_string()),
    }
}

/// Emits the terminal error and builds the returned failure for a pool
/// dispatch that did not complete; a completed dispatch passes its outcome
/// through untouched (its messages went out through the pool's own handle).
pub fn finish_pool_outcome(sender: &mut MessageSender, task_id: u64, outcome: PoolOutcome) -> (r:
    Result<(), PyRunnerError>)
    ensures
        match outcome {
            PoolOutcome::Completed(res) => final(sender)@ == old(sender)@ && r == res,
            PoolOutcome::JoinFailed(m) => {
                let e = PyRunnerError::TaskExecutionFailed { message: m };
                &&& final(sender)@ == old(sender)@.push(error_terminal(&e))
                &&& r == Result::<(), PyRunnerError>::Err(e)
            },
            PoolOutcome::PoolUnavailable(m) => {
                let e = PyRunnerError::IoError { message: m };
                &&& final(sender)@ == old(sender)@.push(error_terminal(&e))
                &&& r == Result::<(), PyRunnerError>::Err(e)
            },
        },
{
    match outcome {
        PoolOutcome::Completed(res) => res,
        PoolOutcome::JoinFailed(m) => {
            let e = PyRunnerError::TaskExecutionFailed { message: m };
            sender.send_task_error(task_id, &e);
            Err(e)
        },
        PoolOutcome::PoolUnavailable(m) => {
            let e = PyRunnerError::IoError { message: m };
            sender.send_task_error(task_id, &e);
            Err(e)
        },
    }
}

/// The two execution strategies behind one interface. The executor owns
/// nothing but the work; it is tied to no task id or channel, so one value
/// can run many tasks.
pub enum TaskExecutor<J> {
    /// Run the work on a blocking-capable worker pool.
    Thread(std::sync::Arc<J>),
    /// Run the work isolated in a child process, where a driver provides
    /// the isolation primitive; run in place where none does.
    Process(Box<J>),
}

impl<J: Job + Send + Sync + 'static> TaskExecutor<J> {
    pub fn new_thread(task_function: J) -> (r: Self)
        ensures
            r is Thread,
    {
        TaskExecutor::Thread(std::sync::Arc::new(task_function))
    }

    pub fn new_process(task_function: J) -> (r: Self)
        ensures
            r is Process,
    {
        TaskExecutor::Process(Box::new(task_function))
    }

    /// Runs one task, blocking until it ends. Exactly one terminal message
    /// is emitted for the work that ran here; with the thread strategy it
    /// travels through the pool's own cloned handle, so this sender records
    /// it only when the pool itself failed.
    pub fn execute(&self, task_id: u64, sender: &mut MessageSender) -> (r: Result<
        (),
        PyRunnerError,
    >)
        ensures
            old(sender)@.is_prefix_of(final(sender)@),
            stream_wf(appended(old(sender)@, final(sender)@)),
            self is Process ==> ({
                let app = appended(old(sender)@, final(sender)@);
                &&& app.len() > 0
                &&& progress_only(app.drop_last())
                &&& match r {
                    Ok(()) => app.last() == success_terminal(),
                    Err(e) => app.last() == error_terminal(&e),
                }
            }),
            self is Thread ==> ({
                let app = appended(old(sender)@, final(sender)@);
                &&& (r is Ok ==> app.len() == 0)
                &&& (app.len() > 0 ==> app.len() == 1 && (r matches Err(e) && app[0]
                    == error_terminal(&e)))
            }),
    {
        match self {
            TaskExecutor::Thread(job) => {
                let outcome = run_on_blocking_pool(job, sender, task_id);
                let r = finish_pool_outcome(sender, task_id, outcome);
                proof {
                    assert(appended(old(sender)@, sender@) =~= sender@.skip(old(sender)@.len() as int));
                    assert(sender@.subrange(0, old(sender)@.len() as int) =~= old(sender)@);
                    if sender@.len() > old(sender)@.len() {
                        assert(appended(old(sender)@, sender@) =~= seq![sender@.last()]);
                    } else {
                        assert(appended(old(sender)@, sender@) =~= Seq::<MsgView>::empty());
                    }
                }
                r
            },
            TaskExecutor::Process(job) => run_job_to_completion(&**job, sender, task_id),
        }
    }
}

/// How a child process ended, as the parent's wait observed it.
#[derive(Debug, Clone)]
pub enum WaitOutcome {
    /// The child exited with this status code.
    Exited(i32),
    /// The child was terminated by this signal.
    Signaled(i32),
    /// The wait reported something else (stopped, continued, ...).
    Other(String),
    /// The wait itself failed, with this description.
    WaitFailed(String),
}

pub open spec fn spec_exit_error_text(task_id: u64, code: i32) -> Seq<char> {
    "task "@ + spec_dec(task_id as int) + ": child exited with status "@ + spec_dec_signed(
        code as int,
    )
}

pub open spec fn spec_signal_error_text(task_id: u64, signal: i32) -> Seq<char> {
    "task "@ + spec_dec(task_id as int) + ": child terminated by signal "@ + spec_dec_signed(
        signal as int,
    )
}

pub open spec fn spec_wait_status_error_text(task_id: u64, detail: Seq<char>) -> Seq<char> {
    "task "@ + spec_dec(task_id as int) + ": unexpected wait status: "@ + detail
}

pub open spec fn spec_wait_failed_error_text(task_id: u64, detail: Seq<char>) -> Seq<char> {
    "task "@ + spec_dec(task_id as int) + ": failed to wait for the child: "@ + detail
}

/// The error text the parent reports for each way a child can end short of
/// a clean exit.
pub open spec fn spec_parent_error_text(task_id: u64, w: &WaitOutcome) -> Seq<char> {
    match w {
        WaitOutcome::Exited(code) => spec_exit_error_text(task_id, *code),
        WaitOutcome::Signaled(signal) => spec_signal_error_text(task_id, *signal),
        WaitOutcome::Other(detail) => spec_wait_status_error_text(task_id, detail@),
        WaitOutcome::WaitFailed(detail) => spec_wait_failed_error_text(task_id, detail@),
    }
}

fn parent_error_text(task_id: u64, w: &WaitOutcome) -> (r: String)
    ensures
        r@ == spec_parent_error_text(task_id, w),
{
    proof {
        reveal_strlit("task ");
        reveal_strlit(": child exited with status ");
        reveal_strlit(": child terminated by signal ");
        reveal_strlit(": unexpected wait status: ");
        reveal_strlit(": failed to wait for the child: ");
    }
    let mut s = String::from_str("task ");
    s.append(u64_to_string(task_id).as_str());
    match w {
        WaitOutcome::Exited(code) => {
            s.append(": child exited with status ");
            s.append(i64_to_string(*code as i64).as_str());
        },
        WaitOutcome::Signaled(signal) => {
            s.append(": child terminated by signal ");
            s.append(i64_to_string(*signal as i64).as_str());
        },
        WaitOutcome::Other(detail) => {
            s.append(": unexpected wait status: ");
            s.append(detail.as_str());
        },
        WaitOutcome::WaitFailed(detail) => {
            s.append(": failed to wait for the child: ");
            s.append(detail.as_str());
        },
    }
    s
}

/// Runs the work in the child after the process was duplicated, and decides
/// the child's exit status: 0 for success, 1 for failure. On success the
/// child emits no terminal message — the parent is the sole emitter of the
/// terminal outcome on that path; on failure the child emits the terminal
/// error itself, and the non-zero status is the backstop signal the parent
/// classifies.
pub fn process_child_run<J: Job>(job: &J, sender: &mut MessageSender, task_id: u64) -> (code: i32)
    ensures
        old(sender)@.is_prefix_of(final(sender)@),
        stream_wf(appended(old(sender)@, final(sender)@)),
        code == 0 || code == 1,
        code == 0 ==> progress_only(appended(old(sender)@, final(sender)@)),
        code == 1 ==> ({
            let app = appended(old(sender)@, final(sender)@);
            &&& app.len() > 0
            &&& app.last() is Error
            &&& progress_only(app.drop_last())
        }),
{
    let r = job.run(sender, task_id);
    let ghost mid = sender@;
    match r {
        Ok(()) => 0,
        Err(e) => {
            sender.send_task_error(task_id, &e);
            proof {
                lemma_terminal_append(old(sender)@, mid, sender@);
            }
            1
        },
    }
}

/// Classifies how the child ended, emits the terminal message and returns
/// the task's outcome: a clean exit is the success, for which the parent
/// emits the terminal result; every other way the child can end becomes a
/// task-execution failure whose text names the task and what happened.
pub fn process_parent_finish(sender: &mut MessageSender, task_id: u64, w: WaitOutcome) -> (r:
    Result<(), PyRunnerError>)
    ensures
        w matches WaitOutcome::Exited(0) ==> final(sender)@ == old(sender)@.push(success_terminal())
            && r is Ok,
        !(w matches WaitOutcome::Exited(0)) ==> ({
            &&& r matches Err(e) && e matches PyRunnerError::TaskExecutionFailed { message }
                && message@ == spec_parent_error_text(task_id, &w)
            &&& final(sender)@ == old(sender)@.push(
                MsgView::Error { code: 1001, text: spec_parent_error_text(task_id, &w) },
            )
        }),
{
    match w {
        WaitOutcome::Exited(0) => {
            sender.send_task_completed(task_id);
            Ok(())
        },
        _ => {
            let e = PyRunnerError::TaskExecutionFailed { message: parent_error_text(task_id, &w) };
            sender.send_task_error(task_id, &e);
            Err(e)
        },
    }
}

} // verus!
