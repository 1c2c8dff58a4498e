//! The unit of work: a caller-supplied capability invoked once per task,
//! given a message sink and the task's identifier. A job reports progress
//! through the sink; the executor alone emits the stream's terminal
//! message, so a job's contract is to append progress messages only.
use vstd::prelude::*;

use crate::error::PyRunnerError;
use crate::message::MsgView;
use crate::sender::MessageSender;
use crate::stream::progress_only;

verus! {

/// A unit of work. `run` may block; it reports progress through the sender
/// and returns whether the work succeeded. It must not emit a terminal
/// message: the executor owns the terminal outcome.
pub trait Job {
    fn run(&self, sender: &mut MessageSender, task_id: u64) -> (r: Result<(), PyRunnerError>)
        ensures
            old(sender)@.is_prefix_of(final(sender)@),
            progress_only(final(sender)@.skip(old(sender)@.len() as int)),
    ;
}

/// The progress stream of a job that works through `steps` steps: after
/// step `i` it reports `i` of `steps` done.
pub open spec fn steps_emission(steps: u64) -> Seq<MsgView> {
    Seq::new(steps as nat, |i: int| MsgView::Progress { done: (i + 1) as u64, size: steps })
}

/// The progress of such a job never goes backwards.
pub proof fn lemma_steps_emission_monotonic(steps: u64)
    ensures
        crate::stream::monotonic_progress(steps_emission(steps)),
{
}

/// A job that works through a fixed number of steps, reporting each one.
pub struct StepsJob {
    pub steps: u64,
}

impl StepsJob {
    pub fn new(steps: u64) -> (r: Self)
        ensures
            r.steps == steps,
    {
        Self { steps }
    }

    /// Reports progress `1..=steps` of `steps`, in order.
    pub fn emit_steps(&self, sender: &mut MessageSender, task_id: u64)
        ensures
            final(sender)@ == old(sender)@ + steps_emission(self.steps),
    {
        let mut i: u64 = 0;
        while i < self.steps
            invariant
                i <= self.steps,
                sender@ == old(sender)@ + steps_emission(self.steps).take(i as int),
            decreases self.steps - i,
        {
            i = i + 1;
            sender.send_task_progress(task_id, i, self.steps);
            proof {
                assert(steps_emission(self.steps).take(i as int) =~= steps_emission(
                    self.steps,
                ).take(i - 1).push(MsgView::Progress { done: i, size: self.steps }));
                assert(sender@ =~= old(sender)@ + steps_emission(self.steps).take(i as int));
            }
        }
        proof {
            assert(steps_emission(self.steps).take(self.steps as int) =~= steps_emission(
                self.steps,
            ));
        }
    }
}

impl Job for StepsJob {
    fn run(&self, sender: &mut MessageSender, task_id: u64) -> (r: Result<(), PyRunnerError>) {
        self.emit_steps(sender, task_id);
        proof {
            assert(sender@.skip(old(sender)@.len() as int) =~= steps_emission(self.steps));
            assert(sender@.subrange(0, old(sender)@.len() as int) =~= old(sender)@);
        }
        Ok(())
    }
}

/// A job that fails at once with the given message, emitting nothing.
pub struct FailJob {
    pub message: String,
}

impl FailJob {
    pub fn new(message: String) -> (r: Self)
        ensures
            r.message == message,
    {
        Self { message }
    }
}

impl Job for FailJob {
    fn run(&self, sender: &mut MessageSender, _task_id: u64) -> (r: Result<(), PyRunnerError>) {
        proof {
            assert(sender@.skip(old(sender)@.len() as int) =~= Seq::<MsgView>::empty());
            assert(sender@.subrange(0, old(sender)@.len() as int) =~= old(sender)@);
        }
        Err(PyRunnerError::TaskExecutionFailed { message: self.message.clone() })
    }
}

} // verus!
