//! Routing one inbound update: classify it, pick the photo variant to
//! fetch, and turn the pipeline's outcome into the user-facing reply and
//! the transport-facing acknowledgment.

use vstd::prelude::*;

use crate::PipelineError;
use crate::keyboard::{OutgoingResponse, build, fallback_text, response_for};

verus! {

/// A reference to one resolution variant of an uploaded photo.
pub struct PhotoRef {
    /// The transport's opaque identifier for the variant's file.
    pub file_id: String,
}

/// What the dispatcher reads from one inbound update.
pub enum InboundUpdate {
    /// Anything that is not a message.
    NotMessage,
    /// A message, with the photo variants it carries (possibly none),
    /// listed by the transport from smallest to largest resolution.
    Message { photos: Vec<PhotoRef> },
}

/// Where one update routes.
pub enum Route {
    /// Acknowledge only: the update is not a message.
    Acknowledge,
    /// Reply with the fixed instructional text: a message without a photo.
    ReplyNoPhoto,
    /// Fetch this photo variant and run the transcription pipeline.
    Transcribe { file_id: String },
}

/// The instructional reply for a message without a photo.
pub open spec fn instructional_text() -> Seq<char> {
    "I only accept photo messages."@
}

/// The acknowledgment body for a handled update.
pub open spec fn ack_body_ok() -> Seq<char> {
    "OK"@
}

/// The acknowledgment body for a message without a photo.
pub open spec fn ack_body_not_photo() -> Seq<char> {
    "Not a photo message"@
}

/// Classify an update and pick the photo variant to fetch.
///
/// The chosen variant is the last one listed, the highest resolution
/// under the transport's smallest-to-largest ordering — a documented
/// assumption on the transport, not a re-sorting. A message with no
/// variants routes to the instructional reply, never into the
/// transcription path.
pub fn route_update(update: InboundUpdate) -> (r: Route)
    ensures
        update matches InboundUpdate::NotMessage ==> r matches Route::Acknowledge,
        update matches InboundUpdate::Message { photos } ==> (photos@.len() == 0 ==> (r
            matches Route::ReplyNoPhoto)) && (photos@.len() > 0 ==> (r matches Route::Transcribe {
            file_id,
        } && file_id@ == photos@.last().file_id@)),
{
    match update {
        InboundUpdate::NotMessage => Route::Acknowledge,
        InboundUpdate::Message { mut photos } => {
            if photos.len() == 0 {
                Route::ReplyNoPhoto
            } else {
                let best = photos.pop().unwrap();
                Route::Transcribe { file_id: best.file_id }
            }
        },
    }
}

/// The user-facing reply for the photo path: the built keyboard reply on
/// success, the fixed fallback text on any failure — download, decode or
/// engine alike; no error detail reaches the user.
pub fn respond_to_photo(outcome: Result<Vec<String>, PipelineError>) -> (r: OutgoingResponse)
    ensures
        outcome matches Ok(lines) ==> response_for(lines.deep_view(), r),
        outcome is Err ==> (r matches OutgoingResponse::TextReply(m) && m@ == fallback_text()),
{
    match outcome {
        Ok(lines) => build(lines),
        Err(_) => OutgoingResponse::TextReply(String::from_str("Sorry, can't parse your image.")),
    }
}

/// The reply for a message that carries no photo.
pub fn no_photo_reply() -> (r: OutgoingResponse)
    ensures
        r matches OutgoingResponse::TextReply(m) && m@ == instructional_text(),
{
    OutgoingResponse::TextReply(String::from_str("I only accept photo messages."))
}

/// What goes back to the transport that delivered the update.
pub struct WebhookReply {
    /// The HTTP status of the acknowledgment.
    pub status: u16,
    /// The short acknowledgment body.
    pub body: String,
}

/// The acknowledgment for a handled update: always status 200, whatever
/// happened inside, so the transport never retries delivery.
pub fn acknowledgment(route: &Route) -> (r: WebhookReply)
    ensures
        r.status == 200,
        route matches Route::ReplyNoPhoto ==> r.body@ == ack_body_not_photo(),
        !(route matches Route::ReplyNoPhoto) ==> r.body@ == ack_body_ok(),
{
    match route {
        Route::ReplyNoPhoto => WebhookReply {
            status: 200,
            body: String::from_str("Not a photo message"),
        },
        _ => WebhookReply { status: 200, body: String::from_str("OK") },
    }
}

} // verus!
