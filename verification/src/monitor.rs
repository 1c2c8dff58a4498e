//! The supervision pair: a fresh channel's sender together with a receiver
//! ready to dispatch to listeners. A host composes the two concurrently —
//! monitoring on one thread, execution on another — or drives them in turn.
use vstd::prelude::*;
use vstd::string::StringExecFns;

use crate::channel::ipc_channel_pair;
use crate::error::PyRunnerError;
use crate::listener::MessageListener;
use crate::message::{is_terminal, MsgView};
use crate::receiver::{ListenEnd, MessageReceiver};
use crate::sender::MessageSender;
use crate::stream::{appended, progress_only, stream_wf};

verus! {

pub struct ProgressMonitor<L: MessageListener> {
    message_sender: MessageSender,
    message_receiver: MessageReceiver<L>,
}

impl<L: MessageListener> View for ProgressMonitor<L> {
    type V = Seq<MsgView>;

    /// The messages the monitor has dispatched to its listeners.
    closed spec fn view(&self) -> Seq<MsgView> {
        self.message_receiver@
    }
}

impl<L: MessageListener> ProgressMonitor<L> {
    pub closed spec fn spec_sender_view(&self) -> Seq<MsgView> {
        self.message_sender@
    }

    pub closed spec fn spec_num_listeners(&self) -> nat {
        self.message_receiver.spec_num_listeners()
    }

    /// A monitor over a fresh channel, with no listeners yet.
    pub fn new() -> (r: Result<Self, PyRunnerError>)
        ensures
            r matches Ok(m) ==> m@ == Seq::<MsgView>::empty() && m.spec_sender_view()
                == Seq::<MsgView>::empty() && m.spec_num_listeners() == 0,
            r matches Err(e) ==> e is IoError,
    {
        match ipc_channel_pair() {
            Some((tx, rx)) => Ok(
                Self { message_sender: MessageSender::new(tx), message_receiver: MessageReceiver::new(rx) },
            ),
            None => Err(
                PyRunnerError::IoError {
                    message: String::from_str("failed to create the message channel"),
                },
            ),
        }
    }

    pub fn add_listener(&mut self, listener: L)
        ensures
            final(self)@ == old(self)@,
            final(self).spec_sender_view() == old(self).spec_sender_view(),
            final(self).spec_num_listeners() == old(self).spec_num_listeners() + 1,
    {
        self.message_receiver.add_listener(listener);
    }

    /// Drains the channel, dispatching to the listeners; the dispatched
    /// stream stays well formed.
    pub fn start_monitoring(&mut self) -> (r: ListenEnd)
        ensures
            old(self)@.is_prefix_of(final(self)@),
            stream_wf(appended(old(self)@, final(self)@)),
            r is Terminal ==> appended(old(self)@, final(self)@).len() > 0 && is_terminal(
                appended(old(self)@, final(self)@).last(),
            ),
            !(r is Terminal) ==> progress_only(appended(old(self)@, final(self)@)),
    {
        self.message_receiver.start_listening()
    }

    /// Takes the two ends apart, to drive them from different threads.
    pub fn split(self) -> (r: (MessageSender, MessageReceiver<L>))
        ensures
            r.0@ == self.spec_sender_view(),
            r.1@ == self@,
            r.1.spec_num_listeners() == self.spec_num_listeners(),
    {
        (self.message_sender, self.message_receiver)
    }
}

} // verus!
