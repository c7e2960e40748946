//! The notification payload carried by a webhook call.

use crate::document::{lookup, Document, JsonModel, JsonValue};
use vstd::prelude::*;
use vstd::string::StringSliceAdditionalSpecFns;
use vstd::utf8::encode_utf8;

verus! {

pub const TEXT_KEY: &'static str = "text";
pub const DURATION_KEY: &'static str = "duration_ms";

/// Largest accepted notification text, in UTF-8 bytes.
pub const MAX_TEXT_BYTES: usize = 4096;

/// A notification to show: its text and how long to show it, in
/// milliseconds (advisory; native notifications ignore it).
pub struct WebhookPayload {
    pub text: String,
    pub duration_ms: u32,
}

pub struct PayloadView {
    pub text: Seq<char>,
    pub duration_ms: u32,
}

impl View for WebhookPayload {
    type V = PayloadView;

    open spec fn view(&self) -> PayloadView {
        PayloadView { text: self.text@, duration_ms: self.duration_ms }
    }
}

impl Clone for WebhookPayload {
    fn clone(&self) -> (r: WebhookPayload)
        ensures
            r@ == self@,
    {
        WebhookPayload { text: self.text.clone(), duration_ms: self.duration_ms }
    }
}

/// The payload of the event that refreshes an open notification surface.
pub struct UpdatePayload {
    pub text: String,
    pub duration_ms: u32,
}

/// A text that a payload may carry: not empty, at most `MAX_TEXT_BYTES`
/// bytes of UTF-8.
pub open spec fn valid_text(t: Seq<char>) -> bool {
    0 < encode_utf8(t).len() <= MAX_TEXT_BYTES
}

/// The payload that a request body stands for, or `None` when the body is
/// not a valid payload: `text` must be a valid text and `duration_ms` a
/// positive integer that fits in 32 bits. Other fields are ignored.
pub open spec fn payload_of(d: Seq<(Seq<char>, JsonModel)>) -> Option<PayloadView> {
    match (lookup(d, TEXT_KEY@), lookup(d, DURATION_KEY@)) {
        (Some(JsonModel::Text(t)), Some(JsonModel::Int(n))) => {
            if valid_text(t) && 0 < n <= u32::MAX {
                Some(PayloadView { text: t, duration_ms: n as u32 })
            } else {
                None
            }
        },
        _ => None,
    }
}

impl WebhookPayload {
    /// Reads a payload from a parsed request body.
    pub fn from_document(d: &Document) -> (r: Option<WebhookPayload>)
        ensures
            match r {
                Some(p) => payload_of(d@) == Some(p@),
                None => payload_of(d@) is None,
            },
    {
        let text = d.get(TEXT_KEY);
        let duration = d.get(DURATION_KEY);
        match (text, duration) {
            (Some(JsonValue::Text(t)), Some(JsonValue::Int(n))) => {
                let ts = t.as_str();
                let len: usize = ts.as_bytes().len();
                assert(len == encode_utf8(t@).len());
                if 0 < len && len <= MAX_TEXT_BYTES && 0 < *n && *n <= 0xffff_ffffu64 {
                    let p = WebhookPayload { text: t.clone(), duration_ms: *n as u32 };
                    assert(p@ == PayloadView { text: t@, duration_ms: *n as u32 });
                    Some(p)
                } else {
                    None
                }
            },
            _ => None,
        }
    }

    /// The update event that carries this payload to an open surface.
    pub fn to_update(&self) -> (u: UpdatePayload)
        ensures
            u.text@ == self.text@,
            u.duration_ms == self.duration_ms,
    {
        UpdatePayload { text: self.text.clone(), duration_ms: self.duration_ms }
    }
}

} // verus!
