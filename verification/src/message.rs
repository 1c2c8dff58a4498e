//! The wire protocol: the closed set of event kinds exchanged between a task
//! and its observers, together with the mathematical view used in contracts.
use vstd::prelude::*;

verus! {

/// Payload of a progress event. `size == 0` means the total is not known yet;
/// once a positive `size` is known, `done` is expected not to exceed it.
#[derive(Debug, Clone, Copy, PartialEq, Eq, Structural)]
pub struct ProgressMessage {
    pub done: u64,
    pub size: u64,
}

/// Payload of a terminal failure event: a stable numeric code from the
/// error taxonomy and a human-readable text.
#[derive(Debug, Clone)]
pub struct ErrorMessage {
    pub error_code: i32,
    pub error_message: String,
}

/// Payload of a terminal success event.
#[derive(Debug, Clone, Copy, PartialEq, Eq, Structural)]
pub struct ResultMessage {
    pub pages: u64,
    pub words: u64,
}

/// A message of a task's stream: zero or more `Progress` events followed by
/// at most one terminal event (`Error` or `Result`).
#[derive(Debug, Clone)]
pub enum Message {
    Progress(ProgressMessage),
    Error(ErrorMessage),
    Result(ResultMessage),
}

/// The mathematical value of a `Message`: the same data with the text as a
/// sequence of characters. Contracts and ghost state speak of this type.
pub enum MsgView {
    Progress { done: u64, size: u64 },
    Error { code: i32, text: Seq<char> },
    Result { pages: u64, words: u64 },
}

impl View for Message {
    type V = MsgView;

    open spec fn view(&self) -> MsgView {
        match self {
            Message::Progress(p) => MsgView::Progress { done: p.done, size: p.size },
            Message::Error(e) => MsgView::Error { code: e.error_code, text: e.error_message@ },
            Message::Result(r) => MsgView::Result { pages: r.pages, words: r.words },
        }
    }
}

/// A terminal message ends the stream: everything but `Progress`.
pub open spec fn is_terminal(m: MsgView) -> bool {
    !(m is Progress)
}

impl ProgressMessage {
    pub fn new(done: u64, size: u64) -> (r: Self)
        ensures
            r == (ProgressMessage { done, size }),
    {
        Self { done, size }
    }
}

impl ErrorMessage {
    pub fn new(error_code: i32, error_message: String) -> (r: Self)
        ensures
            r == (ErrorMessage { error_code, error_message }),
    {
        Self { error_code, error_message }
    }
}

impl ResultMessage {
    pub fn new(pages: u64, words: u64) -> (r: Self)
        ensures
            r == (ResultMessage { pages, words }),
    {
        Self { pages, words }
    }
}

impl Message {
    /// Whether this message ends a stream.
    pub fn terminal(&self) -> (r: bool)
        ensures
            r == is_terminal(self@),
    {
        match self {
            Message::Progress(_) => false,
            Message::Error(_) => true,
            Message::Result(_) => true,
        }
    }
}

impl PartialEq for ErrorMessage {
    fn eq(&self, other: &Self) -> (r: bool) {
        self.error_code == other.error_code && self.error_message == other.error_message
    }
}

impl Eq for ErrorMessage {

}

impl vstd::std_specs::cmp::PartialEqSpecImpl for ErrorMessage {
    open spec fn obeys_eq_spec() -> bool {
        true
    }

    open spec fn eq_spec(&self, other: &Self) -> bool {
        self.error_code == other.error_code && self.error_message@ == other.error_message@
    }
}

impl PartialEq for Message {
    fn eq(&self, other: &Self) -> (r: bool) {
        match (self, other) {
            (Message::Progress(a), Message::Progress(b)) => *a == *b,
            (Message::Error(a), Message::Error(b)) => *a == *b,
            (Message::Result(a), Message::Result(b)) => *a == *b,
            _ => false,
        }
    }
}

impl Eq for Message {

}

impl vstd::std_specs::cmp::PartialEqSpecImpl for Message {
    open spec fn obeys_eq_spec() -> bool {
        true
    }

    open spec fn eq_spec(&self, other: &Self) -> bool {
        self@ == other@
    }
}

} // verus!
