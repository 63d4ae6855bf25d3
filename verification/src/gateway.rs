//! The gateway: the wire forms of a chat request and its reply, and the HTTP
//! answer that comes of a dispatch.

use vstd::prelude::*;
use crate::json::{field, json_field, json_parse, json_quoted, parse, quote};
use crate::mediator::AskModel;
use crate::text::joined;

verus! {

/// A chat request as the front end posts it.
pub struct ChatIn {
    pub session_id: String,
    pub model: String,
    pub message: String,
}

/// The one shape of an answer to the front end.
pub struct ChatOut {
    pub reply: String,
}

/// An HTTP answer: the status code and the body to serialise.
pub struct HttpReply {
    pub status: u16,
    pub body: ChatOut,
}

/// The three strings of a chat request in a document; `None` unless all three
/// are there as strings.
pub open spec fn chat_in_fields(v: serde_json::Value) -> Option<
    (Seq<char>, Seq<char>, Seq<char>),
> {
    match (json_field(v, "sessionId"@), json_field(v, "model"@), json_field(v, "message"@)) {
        (Some(s), Some(m), Some(t)) => Some((s, m, t)),
        _ => None,
    }
}

/// The three strings of a chat request in a body; `None` where the body is no
/// JSON or lacks one of them.
pub open spec fn chat_in_of(body: Seq<u8>) -> Option<(Seq<char>, Seq<char>, Seq<char>)> {
    match json_parse(body) {
        Ok(v) => chat_in_fields(v),
        Err(_) => None,
    }
}

/// The reply text of an HTTP answer, given how the dispatch ended: with the
/// mediator's reply, with the mediator's error, or without reaching it.
pub open spec fn reply_text(outcome: Result<Result<String, String>, String>) -> Seq<char> {
    match outcome {
        Ok(Ok(reply)) => reply@,
        Ok(Err(err)) => "error: "@ + err@,
        Err(mailbox) => "mailbox error: "@ + mailbox@,
    }
}

/// The status of an HTTP answer: 200 for a reply, 500 for either failure.
pub open spec fn reply_status(outcome: Result<Result<String, String>, String>) -> u16 {
    match outcome {
        Ok(Ok(_)) => 200,
        _ => 500,
    }
}

impl ChatIn {
    /// The request as three sequences of characters.
    pub open spec fn view(&self) -> (Seq<char>, Seq<char>, Seq<char>) {
        (self.session_id@, self.model@, self.message@)
    }

    /// Reads a request out of a document. Members other than the three are
    /// passed over; empty strings are taken as they are.
    pub fn read(v: &serde_json::Value) -> (r: Option<ChatIn>)
        ensures
            match r {
                Some(c) => chat_in_fields(*v) == Some(c@),
                None => chat_in_fields(*v) is None,
            },
    {
        let session_id = field(v, "sessionId");
        let model = field(v, "model");
        let message = field(v, "message");
        match (session_id, model, message) {
            (Some(session_id), Some(model), Some(message)) => Some(
                ChatIn { session_id, model, message },
            ),
            _ => None,
        }
    }

    /// Reads a request out of a posted body; `None` where the body is no JSON
    /// or no request.
    pub fn from_json(body: &[u8]) -> (r: Option<ChatIn>)
        ensures
            match r {
                Some(c) => chat_in_of(body@) == Some(c@),
                None => chat_in_of(body@) is None,
            },
    {
        match parse(body) {
            Ok(v) => Self::read(&v),
            Err(_) => None,
        }
    }

    /// The work that this request asks of the mediator.
    pub fn task(&self) -> (r: AskModel)
        ensures
            r.session_id@ == self.session_id@,
            r.model@ == self.model@,
            r.prompt@ == self.message@,
    {
        AskModel {
            session_id: self.session_id.clone(),
            model: self.model.clone(),
            prompt: self.message.clone(),
        }
    }
}

impl ChatOut {
    /// The answer as JSON text: an object with the one member `reply`.
    pub open spec fn json(self) -> Seq<char> {
        "{\"reply\":"@ + json_quoted(self.reply@) + "}"@
    }

    /// Writes the answer as JSON text.
    pub fn to_json(&self) -> (r: String)
        ensures
            r@ == self.json(),
    {
        let mut r = joined("{\"reply\":", quote(self.reply.as_str()).as_str());
        r.push_str("}");
        r
    }
}

/// The status that answers a body which is no chat request.
pub const BAD_REQUEST: u16 = 400;

/// Takes in a posted body: the task to dispatch, or, for a body that is no
/// chat request, the status to answer with at once, the mediator left alone.
pub fn accept(body: &[u8]) -> (r: Result<AskModel, u16>)
    ensures
        match r {
            Ok(task) => chat_in_of(body@) == Some((task.session_id@, task.model@, task.prompt@)),
            Err(status) => status == BAD_REQUEST && chat_in_of(body@) is None,
        },
{
    match ChatIn::from_json(body) {
        Some(request) => Ok(request.task()),
        None => Err(BAD_REQUEST),
    }
}

/// The HTTP answer to a chat request, given how its dispatch ended.
pub fn chat_endpoint(outcome: Result<Result<String, String>, String>) -> (r: HttpReply)
    ensures
        r.status == reply_status(outcome),
        r.body.reply@ == reply_text(outcome),
{
    match outcome {
        Ok(Ok(reply)) => HttpReply { status: 200, body: ChatOut { reply } },
        Ok(Err(err)) => HttpReply {
            status: 500,
            body: ChatOut { reply: joined("error: ", err.as_str()) },
        },
        Err(mailbox) => HttpReply {
            status: 500,
            body: ChatOut { reply: joined("mailbox error: ", mailbox.as_str()) },
        },
    }
}

/// The two failures can be told apart by the reply alone: whatever the
/// mediator's error says and whatever the dispatch failure says, the two reply
/// texts differ.
pub proof fn law_failures_stay_apart(err: String, mailbox: String)
    ensures
        reply_text(Ok(Err(err))) != reply_text(Err(mailbox)),
        reply_status(Ok(Err(err))) == 500,
        reply_status(Err(mailbox)) == 500,
{
    reveal_strlit("error: ");
    reveal_strlit("mailbox error: ");
    let a = "error: "@ + err@;
    let b = "mailbox error: "@ + mailbox@;
    assert(a[0] == 'e');
    assert(b[0] == 'm');
}

/// The status is 200 exactly where the mediator gave a reply, and the reply
/// then goes out unchanged.
pub proof fn law_only_a_reply_is_ok(outcome: Result<Result<String, String>, String>)
    ensures
        reply_status(outcome) == 200 <==> outcome matches Ok(Ok(_)),
        reply_status(outcome) == 200 || reply_status(outcome) == 500,
        outcome matches Ok(Ok(reply)) ==> reply_text(outcome) == reply@,
{
}

} // verus!
