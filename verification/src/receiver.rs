//! The receiving end: a polling loop that drains the channel with a bounded
//! timeout, dispatches each message to every registered listener, and stops
//! on the first terminal message or when the channel closes. Its view is
//! the sequence of message values dispatched so far; `start_listening`
//! guarantees that this sequence stays well formed, so no listener ever
//! observes a message after a terminal one.
use vstd::prelude::*;

use crate::channel::{recv_frame_blocking, recv_frame_timeout, recv_frame_try, RecvEvent};
use crate::codec::decode_message;
use crate::error::PyRunnerError;
use crate::listener::MessageListener;
use crate::message::{is_terminal, Message, MsgView};
use crate::stream::{appended, progress_only, stream_wf};
use vstd::string::StringExecFns;

verus! {

/// Why a listening session ended.
#[derive(Debug, Clone, Copy, PartialEq, Eq, Structural)]
pub enum ListenEnd {
    /// A terminal message (error or result) was dispatched.
    Terminal,
    /// Every sender was dropped and the queue was drained: normal shutdown.
    Disconnected,
    /// The transport failed or handed over a malformed frame.
    Faulted,
    /// The session's poll budget ran out before the stream ended.
    BudgetSpent,
}

pub struct MessageReceiver<L: MessageListener> {
    chan: ipc_channel::ipc::IpcReceiver<Vec<u8>>,
    listeners: Vec<L>,
    timeout_ms: u64,
    poll_budget: u64,
    observed: Ghost<Seq<MsgView>>,
}

impl<L: MessageListener> View for MessageReceiver<L> {
    type V = Seq<MsgView>;

    closed spec fn view(&self) -> Seq<MsgView> {
        self.observed@
    }
}

/// Calls the matching callback of every listener, in registration order.
fn dispatch<L: MessageListener>(listeners: &mut Vec<L>, message: &Message)
    ensures
        final(listeners)@.len() == old(listeners)@.len(),
{
    let n = listeners.len();
    let mut i: usize = 0;
    while i < n
        invariant
            i <= n,
            listeners@.len() == n,
        decreases n - i,
    {
        match message {
            Message::Progress(p) => listeners[i].on_progress(p),
            Message::Error(e) => listeners[i].on_error(e),
            Message::Result(r) => listeners[i].on_result(r),
        }
        i += 1;
    }
}

impl<L: MessageListener> MessageReceiver<L> {
    pub closed spec fn spec_num_listeners(&self) -> nat {
        self.listeners@.len()
    }

    pub closed spec fn spec_listeners(&self) -> Seq<L> {
        self.listeners@
    }

    pub closed spec fn spec_timeout_ms(&self) -> u64 {
        self.timeout_ms
    }

    pub closed spec fn spec_poll_budget(&self) -> u64 {
        self.poll_budget
    }

    /// A receiver over the given transport, with no listeners yet, a 100 ms
    /// poll timeout and an all-but-unbounded poll budget.
    pub fn new(chan: ipc_channel::ipc::IpcReceiver<Vec<u8>>) -> (r: Self)
        ensures
            r@ == Seq::<MsgView>::empty(),
            r.spec_num_listeners() == 0,
            r.spec_timeout_ms() == 100,
            r.spec_poll_budget() == u64::MAX,
    {
        Self {
            chan,
            listeners: Vec::new(),
            timeout_ms: 100,
            poll_budget: u64::MAX,
            observed: Ghost(Seq::empty()),
        }
    }

    pub fn add_listener(&mut self, listener: L)
        ensures
            final(self)@ == old(self)@,
            final(self).spec_num_listeners() == old(self).spec_num_listeners() + 1,
            final(self).spec_timeout_ms() == old(self).spec_timeout_ms(),
            final(self).spec_poll_budget() == old(self).spec_poll_budget(),
    {
        self.listeners.push(listener);
    }

    pub fn with_listener(self, listener: L) -> (r: Self)
        ensures
            r@ == self@,
            r.spec_num_listeners() == self.spec_num_listeners() + 1,
            r.spec_timeout_ms() == self.spec_timeout_ms(),
            r.spec_poll_budget() == self.spec_poll_budget(),
    {
        let mut this = self;
        this.add_listener(listener);
        this
    }

    /// Sets how long one receive attempt waits before polling again.
    pub fn set_timeout(&mut self, timeout_ms: u64)
        ensures
            final(self)@ == old(self)@,
            final(self).spec_num_listeners() == old(self).spec_num_listeners(),
            final(self).spec_timeout_ms() == timeout_ms,
            final(self).spec_poll_budget() == old(self).spec_poll_budget(),
    {
        self.timeout_ms = timeout_ms;
    }

    pub fn with_timeout(self, timeout_ms: u64) -> (r: Self)
        ensures
            r@ == self@,
            r.spec_num_listeners() == self.spec_num_listeners(),
            r.spec_timeout_ms() == timeout_ms,
            r.spec_poll_budget() == self.spec_poll_budget(),
    {
        let mut this = self;
        this.set_timeout(timeout_ms);
        this
    }

    /// Caps how many receive attempts one listening session may make: a
    /// deadline in polls for callers that must not block forever.
    pub fn with_poll_budget(self, poll_budget: u64) -> (r: Self)
        ensures
            r@ == self@,
            r.spec_num_listeners() == self.spec_num_listeners(),
            r.spec_timeout_ms() == self.spec_timeout_ms(),
            r.spec_poll_budget() == poll_budget,
    {
        let mut this = self;
        this.poll_budget = poll_budget;
        this
    }

    /// The registered listeners, in registration order; after a listening
    /// session they hold whatever state the dispatched messages left them
    /// in.
    pub fn listeners(&self) -> (r: &Vec<L>)
        ensures
            r@ == self.spec_listeners(),
            r@.len() == self.spec_num_listeners(),
    {
        &self.listeners
    }

    /// One blocking receive, decoded. This does not dispatch to listeners.
    pub fn recv(&self) -> (r: Result<Message, PyRunnerError>)
        ensures
            r matches Err(e) ==> e is ChannelClosed || e is MessageReceiveError,
    {
        Self::interpret(recv_frame_blocking(&self.chan))
    }

    /// One non-blocking receive attempt; an empty queue reports the
    /// retryable timeout kind.
    pub fn try_recv(&self) -> (r: Result<Message, PyRunnerError>)
        ensures
            r matches Err(e) ==> e is ChannelClosed || e is MessageReceiveError || e is Timeout,
    {
        Self::interpret(recv_frame_try(&self.chan))
    }

    /// One bounded-wait receive attempt; an empty wait reports the
    /// retryable timeout kind.
    pub fn try_recv_timeout(&self, timeout_ms: u64) -> (r: Result<Message, PyRunnerError>)
        ensures
            r matches Err(e) ==> e is ChannelClosed || e is MessageReceiveError || e is Timeout,
    {
        Self::interpret(recv_frame_timeout(&self.chan, timeout_ms))
    }

    fn interpret(ev: RecvEvent) -> (r: Result<Message, PyRunnerError>)
        ensures
            r matches Err(e) ==> e is ChannelClosed || e is MessageReceiveError || e is Timeout,
            !(ev is TimedOut) ==> !(r matches Err(e) && e is Timeout),
    {
        match ev {
            RecvEvent::Frame(frame) => match decode_message(&frame) {
                Some(m) => Ok(m),
                None => Err(
                    PyRunnerError::MessageReceiveError(String::from_str("malformed frame")),
                ),
            },
            RecvEvent::TimedOut => Err(
                PyRunnerError::Timeout { operation: String::from_str("message receive") },
            ),
            RecvEvent::Disconnected => Err(PyRunnerError::ChannelClosed),
            RecvEvent::Malfunction(text) => Err(PyRunnerError::MessageReceiveError(text)),
        }
    }

    /// Drains the channel: polls with the configured timeout, dispatches
    /// every received message to all listeners, and stops at the first
    /// terminal message, on disconnect, on a transport fault, or when the
    /// poll budget is spent. The dispatched stream is well formed — at most
    /// one terminal message, and only as the last message — whatever the
    /// producers sent.
    pub fn start_listening(&mut self) -> (r: ListenEnd)
        ensures
            old(self)@.is_prefix_of(final(self)@),
            stream_wf(appended(old(self)@, final(self)@)),
            r is Terminal ==> appended(old(self)@, final(self)@).len() > 0 && is_terminal(
                appended(old(self)@, final(self)@).last(),
            ),
            !(r is Terminal) ==> progress_only(appended(old(self)@, final(self)@)),
    {
        let ghost base = self.observed@;
        let mut remaining: u64 = self.poll_budget;
        let mut end = ListenEnd::BudgetSpent;
        loop
            invariant_except_break
                base.is_prefix_of(self.observed@),
                progress_only(self.observed@.skip(base.len() as int)),
                end is BudgetSpent,
            ensures
                base.is_prefix_of(self.observed@),
                stream_wf(self.observed@.skip(base.len() as int)),
                end is Terminal ==> self.observed@.len() > base.len() && is_terminal(
                    self.observed@.last(),
                ),
                !(end is Terminal) ==> progress_only(self.observed@.skip(base.len() as int)),
            decreases remaining,
        {
            if remaining == 0 {
                break ;
            }
            remaining = remaining - 1;
            match recv_frame_timeout(&self.chan, self.timeout_ms) {
                RecvEvent::Frame(frame) => {
                    match decode_message(&frame) {
                        Some(m) => {
                            let ghost pre = self.observed@;
                            dispatch(&mut self.listeners, &m);
                            self.observed = Ghost(self.observed@.push(m@));
                            proof {
                                assert(self.observed@.subrange(0, base.len() as int) =~= base);
                                assert(self.observed@.skip(base.len() as int) =~= pre.skip(
                                    base.len() as int,
                                ).push(m@));
                            }
                            if m.terminal() {
                                end = ListenEnd::Terminal;
                                break ;
                            }
                        },
                        None => {
                            end = ListenEnd::Faulted;
                            break ;
                        },
                    }
                },
                RecvEvent::TimedOut => {},
                RecvEvent::Disconnected => {
                    end = ListenEnd::Disconnected;
                    break ;
                },
                RecvEvent::Malfunction(_) => {
                    end = ListenEnd::Faulted;
                    break ;
                },
            }
        }
        end
    }
}

} // verus!
