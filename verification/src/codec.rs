//! The wire encoding of messages. A message crosses the process boundary as
//! a tagged byte frame: one tag byte, then the fields in little-endian
//! order; an error's text travels as length-prefixed UTF-8. Encoding and
//! decoding are exact inverses, so a message survives the channel with full
//! field fidelity.
use vstd::bytes::{
    lemma_auto_spec_u32_to_from_le_bytes, lemma_auto_spec_u64_to_from_le_bytes,
    spec_u32_from_le_bytes, spec_u32_to_le_bytes, spec_u64_from_le_bytes, spec_u64_to_le_bytes,
    u32_from_le_bytes, u32_to_le_bytes, u64_from_le_bytes, u64_to_le_bytes,
};
use vstd::prelude::*;
use vstd::slice::{slice_subrange, slice_to_vec};
use vstd::string::StrSliceExecFns;
use vstd::utf8::{decode_utf8, encode_utf8, encode_utf8_decode_utf8, encode_utf8_valid_utf8, valid_utf8};

use crate::message::{ErrorMessage, Message, MsgView, ProgressMessage, ResultMessage};

verus! {

pub const TAG_PROGRESS: u8 = 1;

pub const TAG_ERROR: u8 = 2;

pub const TAG_RESULT: u8 = 3;

/// A message whose encoded form fits the frame: the UTF-8 bytes of an
/// error's text are counted by a 64-bit length prefix. Every message built
/// from a real `String` satisfies this.
pub open spec fn wf_msg(m: MsgView) -> bool {
    match m {
        MsgView::Error { text, .. } => encode_utf8(text).len() < 0x1_0000_0000_0000_0000,
        _ => true,
    }
}

/// The byte frame of a message.
pub open spec fn encoded(m: MsgView) -> Seq<u8> {
    match m {
        MsgView::Progress { done, size } => seq![TAG_PROGRESS] + spec_u64_to_le_bytes(done)
            + spec_u64_to_le_bytes(size),
        MsgView::Error { code, text } => seq![TAG_ERROR] + spec_u32_to_le_bytes(code as u32)
            + spec_u64_to_le_bytes(encode_utf8(text).len() as u64) + encode_utf8(text),
        MsgView::Result { pages, words } => seq![TAG_RESULT] + spec_u64_to_le_bytes(pages)
            + spec_u64_to_le_bytes(words),
    }
}

/// The message a byte frame holds, if it is well formed.
pub open spec fn decoded(b: Seq<u8>) -> Option<MsgView> {
    if b.len() < 1 {
        None
    } else if b[0] == TAG_PROGRESS {
        if b.len() == 17 {
            Some(
                MsgView::Progress {
                    done: spec_u64_from_le_bytes(b.subrange(1, 9)),
                    size: spec_u64_from_le_bytes(b.subrange(9, 17)),
                },
            )
        } else {
            None
        }
    } else if b[0] == TAG_ERROR {
        if b.len() < 13 {
            None
        } else if b.len() == 13 + spec_u64_from_le_bytes(b.subrange(5, 13)) && valid_utf8(
            b.skip(13),
        ) {
            Some(
                MsgView::Error {
                    code: spec_u32_from_le_bytes(b.subrange(1, 5)) as i32,
                    text: decode_utf8(b.skip(13)),
                },
            )
        } else {
            None
        }
    } else if b[0] == TAG_RESULT {
        if b.len() == 17 {
            Some(
                MsgView::Result {
                    pages: spec_u64_from_le_bytes(b.subrange(1, 9)),
                    words: spec_u64_from_le_bytes(b.subrange(9, 17)),
                },
            )
        } else {
            None
        }
    } else {
        None
    }
}

/// Decoding inverts encoding: a serialized message deserializes to a value
/// with identical fields.
pub proof fn lemma_codec_round_trip(m: MsgView)
    requires
        wf_msg(m),
    ensures
        decoded(encoded(m)) == Some(m),
{
    lemma_auto_spec_u64_to_from_le_bytes();
    lemma_auto_spec_u32_to_from_le_bytes();
    let b = encoded(m);
    match m {
        MsgView::Progress { done, size } => {
            assert(b.subrange(1, 9) =~= spec_u64_to_le_bytes(done));
            assert(b.subrange(9, 17) =~= spec_u64_to_le_bytes(size));
        },
        MsgView::Error { code, text } => {
            let eb = encode_utf8(text);
            encode_utf8_valid_utf8(text);
            encode_utf8_decode_utf8(text);
            assert(b.subrange(1, 5) =~= spec_u32_to_le_bytes(code as u32));
            assert(b.subrange(5, 13) =~= spec_u64_to_le_bytes(eb.len() as u64));
            assert(b.skip(13) =~= eb);
            assert(((code as u32) as i32) == code) by (bit_vector);
        },
        MsgView::Result { pages, words } => {
            assert(b.subrange(1, 9) =~= spec_u64_to_le_bytes(pages));
            assert(b.subrange(9, 17) =~= spec_u64_to_le_bytes(words));
        },
    }
}

/// Relies on String::from_utf8: it accepts exactly the valid UTF-8 byte
/// sequences and yields the characters those bytes encode.
#[verifier::external_body]
fn bytes_to_string(v: Vec<u8>) -> (r: Option<String>)
    ensures
        match r {
            Some(s) => valid_utf8(v@) && s@ == decode_utf8(v@),
            None => !valid_utf8(v@),
        },
{
    match String::from_utf8(v) {
        Ok(s) => Some(s),
        Err(_) => None,
    }
}

/// Serializes a message into its byte frame.
pub fn encode_message(m: &Message) -> (r: Vec<u8>)
    ensures
        wf_msg(m@),
        r@ == encoded(m@),
{
    match m {
        Message::Progress(p) => {
            let mut out: Vec<u8> = Vec::new();
            out.push(TAG_PROGRESS);
            let mut a = u64_to_le_bytes(p.done);
            out.append(&mut a);
            let mut b = u64_to_le_bytes(p.size);
            out.append(&mut b);
            proof {
                assert(out@ =~= encoded(m@));
            }
            out
        },
        Message::Error(e) => {
            let mut out: Vec<u8> = Vec::new();
            out.push(TAG_ERROR);
            let mut c = u32_to_le_bytes(e.error_code as u32);
            out.append(&mut c);
            let mut text = e.error_message.as_str().as_bytes_vec();
            let mut n = u64_to_le_bytes(text.len() as u64);
            out.append(&mut n);
            out.append(&mut text);
            proof {
                assert(out@ =~= encoded(m@));
            }
            out
        },
        Message::Result(r) => {
            let mut out: Vec<u8> = Vec::new();
            out.push(TAG_RESULT);
            let mut a = u64_to_le_bytes(r.pages);
            out.append(&mut a);
            let mut b = u64_to_le_bytes(r.words);
            out.append(&mut b);
            proof {
                assert(out@ =~= encoded(m@));
            }
            out
        },
    }
}

/// Deserializes a byte frame; malformed frames are rejected.
pub fn decode_message(b: &Vec<u8>) -> (r: Option<Message>)
    ensures
        match r {
            Some(m) => decoded(b@) == Some(m@),
            None => decoded(b@) is None,
        },
{
    if b.len() < 1 {
        return None;
    }
    let tag = b[0];
    if tag == TAG_PROGRESS {
        if b.len() != 17 {
            return None;
        }
        let done = u64_from_le_bytes(slice_subrange(b.as_slice(), 1, 9));
        let size = u64_from_le_bytes(slice_subrange(b.as_slice(), 9, 17));
        Some(Message::Progress(ProgressMessage { done, size }))
    } else if tag == TAG_ERROR {
        if b.len() < 13 {
            return None;
        }
        let code_bits = u32_from_le_bytes(slice_subrange(b.as_slice(), 1, 5));
        let n = u64_from_le_bytes(slice_subrange(b.as_slice(), 5, 13));
        if (b.len() - 13) as u64 != n {
            return None;
        }
        let text_bytes = slice_to_vec(slice_subrange(b.as_slice(), 13, b.len()));
        proof {
            assert(text_bytes@ =~= b@.skip(13));
        }
        match bytes_to_string(text_bytes) {
            Some(s) => Some(
                Message::Error(ErrorMessage { error_code: code_bits as i32, error_message: s }),
            ),
            None => None,
        }
    } else if tag == TAG_RESULT {
        if b.len() != 17 {
            return None;
        }
        let pages = u64_from_le_bytes(slice_subrange(b.as_slice(), 1, 9));
        let words = u64_from_le_bytes(slice_subrange(b.as_slice(), 9, 17));
        Some(Message::Result(ResultMessage { pages, words }))
    } else {
        None
    }
}

} // verus!
