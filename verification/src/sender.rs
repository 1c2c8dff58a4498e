//! The sending end of the message channel. A sender is cloneable and safe
//! to hand to another thread or a forked child. Its view is the sequence of
//! message values this handle has emitted (handed to the transport, whether
//! or not the peer was still there to take them).
use vstd::prelude::*;

use crate::channel::{clone_raw_sender, send_frame};
use crate::codec::encode_message;
use crate::error::{spec_error_code, spec_message_text, PyRunnerError};
use crate::message::{ErrorMessage, Message, MsgView, ProgressMessage, ResultMessage};

verus! {

pub struct MessageSender {
    chan: ipc_channel::ipc::IpcSender<Vec<u8>>,
    history: Ghost<Seq<MsgView>>,
}

impl View for MessageSender {
    type V = Seq<MsgView>;

    closed spec fn view(&self) -> Seq<MsgView> {
        self.history@
    }
}

impl Clone for MessageSender {
    /// A clone feeds the same receiver; it starts with the same recorded
    /// history as the original.
    fn clone(&self) -> (r: Self)
        ensures
            r@ == self@,
    {
        MessageSender { chan: clone_raw_sender(&self.chan), history: Ghost(self.history@) }
    }
}

impl MessageSender {
    pub fn new(chan: ipc_channel::ipc::IpcSender<Vec<u8>>) -> (r: Self)
        ensures
            r@ == Seq::<MsgView>::empty(),
    {
        Self { chan, history: Ghost(Seq::empty()) }
    }

    /// Emits one message. The message counts as emitted even when the
    /// transport reports a failure: by then the peer may be gone, and the
    /// failure is not actionable by the task.
    pub fn send(&mut self, message: Message) -> (r: Result<(), PyRunnerError>)
        ensures
            final(self)@ == old(self)@.push(message@),
            r matches Err(e) ==> e is MessageSendError,
    {
        let frame = encode_message(&message);
        let r = send_frame(&self.chan, &frame);
        self.history = Ghost(self.history@.push(message@));
        r
    }

    /// Emits one message and swallows a transport failure.
    pub fn send_safe(&mut self, message: Message)
        ensures
            final(self)@ == old(self)@.push(message@),
    {
        let _ = self.send(message);
    }

    pub fn send_progress_safe(&mut self, progress: ProgressMessage)
        ensures
            final(self)@ == old(self)@.push(
                MsgView::Progress { done: progress.done, size: progress.size },
            ),
    {
        self.send_safe(Message::Progress(progress));
    }

    pub fn send_error_safe(&mut self, error_info: ErrorMessage)
        ensures
            final(self)@ == old(self)@.push(
                MsgView::Error { code: error_info.error_code, text: error_info.error_message@ },
            ),
    {
        self.send_safe(Message::Error(error_info));
    }

    pub fn send_result_safe(&mut self, result_info: ResultMessage)
        ensures
            final(self)@ == old(self)@.push(
                MsgView::Result { pages: result_info.pages, words: result_info.words },
            ),
    {
        self.send_safe(Message::Result(result_info));
    }

    /// Marks the start of a task: a progress event with the total still
    /// unknown.
    pub fn send_task_started(&mut self, _task_id: u64)
        ensures
            final(self)@ == old(self)@.push(MsgView::Progress { done: 0, size: 0 }),
    {
        self.send_progress_safe(ProgressMessage::new(0, 0));
    }

    pub fn send_task_progress(&mut self, _task_id: u64, done: u64, size: u64)
        ensures
            final(self)@ == old(self)@.push(MsgView::Progress { done, size }),
    {
        self.send_progress_safe(ProgressMessage::new(done, size));
    }

    /// Emits the terminal success message.
    pub fn send_task_completed(&mut self, _task_id: u64)
        ensures
            final(self)@ == old(self)@.push(MsgView::Result { pages: 0, words: 0 }),
    {
        self.send_result_safe(ResultMessage::new(0, 0));
    }

    /// Emits a terminal error with the generic internal code.
    pub fn send_task_error_msg(&mut self, _task_id: u64, error_msg: String)
        ensures
            final(self)@ == old(self)@.push(MsgView::Error { code: 9999, text: error_msg@ }),
    {
        self.send_error_safe(ErrorMessage::new(9999, error_msg));
    }

    /// Emits a terminal error carrying the given failure's stable code and
    /// text.
    pub fn send_task_error(&mut self, _task_id: u64, error: &PyRunnerError)
        ensures
            final(self)@ == old(self)@.push(
                MsgView::Error { code: spec_error_code(error), text: spec_message_text(error) },
            ),
    {
        let info = ErrorMessage::new(error.error_code(), error.message_text());
        self.send_error_safe(info);
    }

    /// A handle on the underlying transport, for composing with other
    /// plumbing.
    pub fn get_raw_sender(&self) -> ipc_channel::ipc::IpcSender<Vec<u8>> {
        clone_raw_sender(&self.chan)
    }
}

} // verus!
