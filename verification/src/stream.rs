//! Properties of message streams: well-formedness (at most one terminal
//! message, and only at the end) and monotonicity of progress.
use vstd::prelude::*;

use crate::message::{MsgView, is_terminal};

verus! {

/// No message of the stream is terminal.
pub open spec fn progress_only(s: Seq<MsgView>) -> bool {
    forall|i: int| 0 <= i < s.len() ==> !is_terminal(#[trigger] s[i])
}

/// A well-formed stream: a terminal message can stand only in the last
/// position, so the stream holds at most one of them.
pub open spec fn stream_wf(s: Seq<MsgView>) -> bool {
    forall|i: int| 0 <= i < s.len() && is_terminal(#[trigger] s[i]) ==> i == s.len() - 1
}

/// The done value of a progress message, 0 for the other kinds.
pub open spec fn progress_done(m: MsgView) -> u64 {
    match m {
        MsgView::Progress { done, .. } => done,
        _ => 0,
    }
}

/// The size value of a progress message, 0 for the other kinds.
pub open spec fn progress_size(m: MsgView) -> u64 {
    match m {
        MsgView::Progress { size, .. } => size,
        _ => 0,
    }
}

/// Once a progress message with a known total (`size > 0`) has appeared,
/// no later progress message reports a smaller `done`.
pub open spec fn monotonic_progress(s: Seq<MsgView>) -> bool {
    forall|i: int, j: int|
        0 <= i < j < s.len() && (#[trigger] s[i]) is Progress && progress_size(s[i]) > 0 && (
        #[trigger] s[j]) is Progress ==> progress_done(s[j]) >= progress_done(s[i])
}

/// What a stream gained beyond a given prefix.
pub open spec fn appended(prefix: Seq<MsgView>, s: Seq<MsgView>) -> Seq<MsgView> {
    s.skip(prefix.len() as int)
}

/// Ending a progress-only stream with one terminal message keeps it well
/// formed: this is the shape every task stream is required to have.
pub proof fn lemma_terminated_stream_wf(s: Seq<MsgView>, t: MsgView)
    requires
        progress_only(s),
        is_terminal(t),
    ensures
        stream_wf(s.push(t)),
{
}

} // verus!
