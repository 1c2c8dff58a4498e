//! The observer capability: callbacks invoked once per received message,
//! side effects only. Console and UI renderings implement this outside the
//! library; `RecordingListener` is the library's own in-memory
//! implementation, which tests and callers can inspect.
use vstd::prelude::*;

use crate::message::{ErrorMessage, Message, ProgressMessage, ResultMessage};

verus! {

/// Callbacks for the three message kinds. An implementation must tolerate
/// zero or more progress calls and exactly one terminal call per stream.
pub trait MessageListener {
    fn on_progress(&mut self, progress: &ProgressMessage);

    fn on_error(&mut self, error: &ErrorMessage);

    fn on_result(&mut self, result: &ResultMessage);
}

/// A listener that records every dispatched message in arrival order.
pub struct RecordingListener {
    pub events: Vec<Message>,
}

impl RecordingListener {
    pub fn new() -> (r: Self)
        ensures
            r.events@ == Seq::<Message>::empty(),
    {
        Self { events: Vec::new() }
    }
}

impl MessageListener for RecordingListener {
    fn on_progress(&mut self, progress: &ProgressMessage) {
        self.events.push(Message::Progress(*progress));
    }

    fn on_error(&mut self, error: &ErrorMessage) {
        self.events.push(Message::Error(error.clone()));
    }

    fn on_result(&mut self, result: &ResultMessage) {
        self.events.push(Message::Result(*result));
    }
}

} // verus!
