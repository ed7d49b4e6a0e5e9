//! Decisions of the two API handlers.
//!
//! The HTTP transport (routing, socket handling, reading the body, and the
//! JSON decoding of the body into a request value) happens outside this
//! crate; the handlers here take the declared body length and the decoded
//! request and decide the response and the effect on the pipeline. An
//! oversized body is refused with status 413 before it is ever read. A body
//! that does not decode is reported only through the response text, under a
//! status of 200 that the device has already committed to by then — a quirk
//! of the device's API, kept deliberately and pinned by these contracts.

use vstd::prelude::*;

use crate::channel::Fifo;
use crate::global::MAX_LEN;
use crate::volume::{apply_op, VolumeOp, VolumeState};
use vstd::string::StringExecFns;

verus! {

/// A decoded text-to-speech request: the text to speak.
pub struct TtsRequest {
    pub text: String,
}

/// A decoded volume request: the operation name, `"inc"` or `"dec"`.
pub struct VolumeRequest {
    pub op: String,
}

/// What a handler answers: a status code and a response body.
pub struct HttpResponse {
    pub status: u16,
    pub body: String,
}

/// Handle a text-to-speech request. `content_len` is the declared body
/// length; `parsed` is the decoded body, `None` when it did not decode (it
/// is never looked at for an oversized body, which is refused unread). On
/// success the text is enqueued once to the synthesis channel and once to
/// the display channel; no failure puts anything on either channel.
pub fn handle_tts(
    content_len: usize,
    parsed: Option<TtsRequest>,
    synth_tx: &mut Fifo<String>,
    display_tx: &mut Fifo<String>,
) -> (r: HttpResponse)
    ensures
        content_len > MAX_LEN ==> r.status == 413 && r.body@ == "Request too big"@
            && final(synth_tx)@ == old(synth_tx)@ && final(display_tx)@ == old(display_tx)@,
        content_len <= MAX_LEN && parsed is None ==> r.status == 200 && r.body@ == "JSON error"@
            && final(synth_tx)@ == old(synth_tx)@ && final(display_tx)@ == old(display_tx)@,
        content_len <= MAX_LEN ==> (parsed matches Some(req) ==> r.status == 200 && r.body@
            == "{}"@ && final(synth_tx)@ == old(synth_tx)@.push(req.text) && final(display_tx)@
            == old(display_tx)@.push(req.text)),
{
    if content_len > MAX_LEN {
        return HttpResponse { status: 413, body: String::from_str("Request too big") };
    }
    match parsed {
        None => HttpResponse { status: 200, body: String::from_str("JSON error") },
        Some(req) => {
            display_tx.send(req.text.clone());
            synth_tx.send(req.text);
            HttpResponse { status: 200, body: String::from_str("{}") }
        },
    }
}

/// Handle a volume request. `content_len` and `parsed` are as in
/// [`handle_tts`]. The operation `"inc"` steps the gain up, `"dec"` steps it
/// down, both saturating; any other operation name is logged by the caller
/// and ignored here, leaving the gain as it was — still answered `200 {}`.
pub fn handle_volume(
    content_len: usize,
    parsed: Option<VolumeRequest>,
    vol: &mut VolumeState,
) -> (r: HttpResponse)
    requires
        old(vol).wf(),
    ensures
        final(vol).wf(),
        content_len > MAX_LEN ==> r.status == 413 && r.body@ == "Request too big"@ && final(vol)@
            == old(vol)@,
        content_len <= MAX_LEN && parsed is None ==> r.status == 200 && r.body@ == "JSON error"@
            && final(vol)@ == old(vol)@,
        content_len <= MAX_LEN ==> (parsed matches Some(req) ==> r.status == 200 && r.body@
            == "{}"@ && final(vol)@ == (if req.op@ == "inc"@ {
            apply_op(old(vol)@, VolumeOp::Inc)
        } else if req.op@ == "dec"@ {
            apply_op(old(vol)@, VolumeOp::Dec)
        } else {
            old(vol)@
        })),
{
    if content_len > MAX_LEN {
        return HttpResponse { status: 413, body: String::from_str("Request too big") };
    }
    match parsed {
        None => HttpResponse { status: 200, body: String::from_str("JSON error") },
        Some(req) => {
            if req.op == String::from_str("inc") {
                vol.increment();
            } else if req.op == String::from_str("dec") {
                vol.decrement();
            }
            HttpResponse { status: 200, body: String::from_str("{}") }
        },
    }
}

} // verus!
