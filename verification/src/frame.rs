//! Classification of one line of server output: an unsolicited message
//! event, a query reply, or a malformed frame that is dropped.

use vstd::prelude::*;
use crate::messaging::{is_message_line, message_parts, Messaging};
use crate::query::{reply_tokens, CacheQuery};

verus! {

/// What one line of server output is.
pub enum Frame {
    /// An unsolicited `MESSAGE <topic> <payload>` event.
    Message {
        /// The topic the payload is published on.
        topic: String,
        /// The payload delivered to the topic's subscriber.
        payload: String,
    },
    /// A reply to a pending request, correlated by its id.
    Reply(CacheQuery),
    /// A line that is neither; it is dropped and parsing resumes on the
    /// next line.
    Malformed,
}

/// The mathematical reading of a frame.
pub enum FrameModel {
    /// An unsolicited message event.
    Message {
        /// The topic the payload is published on.
        topic: Seq<char>,
        /// The payload delivered to the topic's subscriber.
        payload: Seq<char>,
    },
    /// A reply to a pending request.
    Reply {
        /// The correlation id the server echoed back.
        id: Seq<char>,
        /// The optional value carried by the reply.
        value: Option<Seq<char>>,
        /// Whether the server answered `ERROR`.
        is_error: bool,
    },
    /// A dropped line.
    Malformed,
}

/// The model a parsed frame denotes.
pub open spec fn frame_model(f: Frame) -> FrameModel {
    match f {
        Frame::Message { topic, payload } => FrameModel::Message {
            topic: topic@,
            payload: payload@,
        },
        Frame::Reply(q) => FrameModel::Reply {
            id: q.id@,
            value: match q.value {
                Some(v) => Some(v@),
                None => None,
            },
            is_error: q.is_error,
        },
        Frame::Malformed => FrameModel::Malformed,
    }
}

/// How one line is classified: a line with the `MESSAGE` prefix is a
/// message event when it has at least three tokens; any other line with
/// at least two tokens is a query reply; everything else is malformed.
pub open spec fn classify_model(line: Seq<char>) -> FrameModel {
    let toks = reply_tokens(line);
    if is_message_line(line) {
        match message_parts(line) {
            Some(p) => FrameModel::Message { topic: p.0, payload: p.1 },
            None => FrameModel::Malformed,
        }
    } else if toks.len() >= 2 {
        FrameModel::Reply {
            id: toks[0],
            value: if toks.len() == 3 {
                Some(toks[2])
            } else {
                None
            },
            is_error: toks[1] == "ERROR"@,
        }
    } else {
        FrameModel::Malformed
    }
}

/// Classifies one line of server output.
pub fn classify(line: &str) -> (f: Frame)
    ensures
        frame_model(f) == classify_model(line@),
{
    if Messaging::is_messaging_event(line) {
        match Messaging::parse_body(line) {
            Some(body) => Frame::Message { topic: body.0, payload: body.1 },
            None => Frame::Malformed,
        }
    } else {
        match CacheQuery::from_str(line) {
            Ok(q) => Frame::Reply(q),
            Err(_) => Frame::Malformed,
        }
    }
}

} // verus!
