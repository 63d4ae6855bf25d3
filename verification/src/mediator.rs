//! The mediator: what is sent to the model server, and which reply comes of
//! what the server did.

use vstd::prelude::*;
use crate::json::{
    error_message, field, json_error_text, json_field, json_member, json_parse, json_quoted,
    json_text, member, parse, quote, render,
};
use crate::text::{contains, joined, lemma_contains_between};

verus! {

/// `reqwest::Client`, the HTTP client. Nothing is stated of it: the mediator
/// holds it for whoever makes the call.
#[verifier::external_type_specification]
#[verifier::external_body]
pub struct ExClient(reqwest::Client);

/// One unit of work for the mediator: who asks, which model, and what.
pub struct AskModel {
    pub session_id: String,
    pub model: String,
    pub prompt: String,
}

/// The mediator: the base URL of the model server and the HTTP client that
/// every call shares. Beyond these it keeps no state from one call to the next.
pub struct ModelActor {
    pub base_url: String,
    pub client: reqwest::Client,
}

/// One turn of the conversation sent to the model server.
pub struct OllamaMessage {
    pub role: String,
    pub content: String,
}

/// The body of a call to the model server.
pub struct OllamaRequest {
    pub model: String,
    pub messages: Vec<OllamaMessage>,
    pub stream: bool,
}

/// What came of the one call to the model server.
pub enum Upstream {
    /// No answer: the connection failed, timed out, or broke off.
    Unreachable,
    /// An HTTP answer, with its status code and the bytes of its body.
    Answered { status: u16, body: Vec<u8> },
}

/// What the normalisation reads in a JSON answer of the model server.
pub struct ReplyShape {
    /// The string at `message.content`, if there is one.
    pub message_content: Option<String>,
    /// The string at `reply`, if there is one.
    pub reply: Option<String>,
    /// The whole document, written out again.
    pub raw: String,
}

/// Is the status one of success, 200 to 299?
pub open spec fn is_success(status: u16) -> bool {
    200 <= status < 300
}

/// The base URL to use: the configured one, or that of a model server on this
/// machine where none is configured.
pub open spec fn base_url_text(configured: Option<String>) -> Seq<char> {
    match configured {
        Some(url) => url@,
        None => "http://localhost:11434"@,
    }
}

/// The URL of the chat call under a base URL.
pub open spec fn chat_url_text(base: Seq<char>) -> Seq<char> {
    base + "/api/chat"@
}

/// The echo that stands in for a reply when the model server cannot be used.
pub open spec fn echo_text(session: Seq<char>, model: Seq<char>, prompt: Seq<char>) -> Seq<char> {
    "(dev echo)"@ + " session="@ + session + " model="@ + model + " -> "@ + prompt
}

/// The body of the chat call for a model and a prompt: one message of the role
/// `user`, and no streaming.
pub open spec fn payload_text(model: Seq<char>, prompt: Seq<char>) -> Seq<char> {
    "{\"model\":"@ + json_quoted(model) + ",\"messages\":["@ + "{\"role\":"@ + json_quoted(
        "user"@,
    ) + ",\"content\":"@ + json_quoted(prompt) + "}"@ + "],\"stream\":"@ + "false"@ + "}"@
}

/// The messages of a request as JSON text, with commas between them.
pub open spec fn messages_json(messages: Seq<OllamaMessage>) -> Seq<char>
    decreases messages.len(),
{
    if messages.len() == 0 {
        Seq::empty()
    } else if messages.len() == 1 {
        messages[0].json()
    } else {
        messages_json(messages.drop_last()) + ","@ + messages.last().json()
    }
}

/// The string at `message.content` of a document.
pub open spec fn message_content(v: serde_json::Value) -> Option<Seq<char>> {
    match json_member(v, "message"@) {
        Some(m) => json_field(m, "content"@),
        None => None,
    }
}

/// The reply in a document read to its three parts: `message.content` before
/// `reply`, and the whole document where neither is a string.
pub open spec fn pick(
    message_content: Option<Seq<char>>,
    reply: Option<Seq<char>>,
    raw: Seq<char>,
) -> Seq<char> {
    match message_content {
        Some(s) => s,
        None => match reply {
            Some(s) => s,
            None => raw,
        },
    }
}

/// The reply in a document.
pub open spec fn normal_text(v: serde_json::Value) -> Seq<char> {
    pick(message_content(v), json_field(v, "reply"@), json_text(v))
}

/// The outcome of a success, given what its body was read as: the reply in
/// the document, or the message of the error that says why there is none.
pub open spec fn decoded(parsed: Result<serde_json::Value, serde_json::Error>) -> Result<
    Seq<char>,
    Seq<char>,
> {
    match parsed {
        Ok(v) => Ok(normal_text(v)),
        Err(e) => Err(json_error_text(e)),
    }
}

/// The outcome of a task, given what came of the call.
pub open spec fn reply_of(task: AskModel, outcome: Upstream) -> Result<Seq<char>, Seq<char>> {
    match outcome {
        Upstream::Unreachable => Ok(echo_text(task.session_id@, task.model@, task.prompt@)),
        Upstream::Answered { status, body } => if !is_success(status) {
            Ok(echo_text(task.session_id@, task.model@, task.prompt@))
        } else {
            decoded(json_parse(body@))
        },
    }
}

/// Does `r` hold the characters that `expected` gives, on the same side?
pub open spec fn holds(r: Result<String, String>, expected: Result<Seq<char>, Seq<char>>) -> bool {
    match r {
        Ok(s) => expected == Ok::<Seq<char>, Seq<char>>(s@),
        Err(s) => expected == Err::<Seq<char>, Seq<char>>(s@),
    }
}

/// The characters of an optional string.
pub open spec fn chars(s: Option<String>) -> Option<Seq<char>> {
    match s {
        Some(s) => Some(s@),
        None => None,
    }
}

impl ReplyShape {
    /// The three parts as characters.
    pub open spec fn picked(self) -> Seq<char> {
        pick(chars(self.message_content), chars(self.reply), self.raw@)
    }

    /// Reads the three parts out of a document.
    pub fn read(v: &serde_json::Value) -> (r: ReplyShape)
        ensures
            chars(r.message_content) == message_content(*v),
            chars(r.reply) == json_field(*v, "reply"@),
            r.raw@ == json_text(*v),
            r.picked() == normal_text(*v),
    {
        let message_content = match member(v, "message") {
            Some(m) => field(m, "content"),
            None => None,
        };
        let reply = field(v, "reply");
        ReplyShape { message_content, reply, raw: render(v) }
    }

    /// The reply: `message.content` where it is there, else `reply`, else the
    /// whole document.
    pub fn text(self) -> (r: String)
        ensures
            r@ == self.picked(),
    {
        match self.message_content {
            Some(s) => s,
            None => match self.reply {
                Some(s) => s,
                None => self.raw,
            },
        }
    }
}

impl OllamaMessage {
    /// The message as JSON text: an object with `role` and `content`.
    pub open spec fn json(self) -> Seq<char> {
        "{\"role\":"@ + json_quoted(self.role@) + ",\"content\":"@ + json_quoted(self.content@)
            + "}"@
    }

    /// Writes the message as JSON text.
    pub fn to_json(&self) -> (r: String)
        ensures
            r@ == self.json(),
    {
        let mut r = joined("{\"role\":", quote(self.role.as_str()).as_str());
        r.push_str(",\"content\":");
        r.push_str(quote(self.content.as_str()).as_str());
        r.push_str("}");
        r
    }
}

impl OllamaRequest {
    /// The request as JSON text: an object with `model`, `messages` and
    /// `stream`, in that order.
    pub open spec fn json(self) -> Seq<char> {
        "{\"model\":"@ + json_quoted(self.model@) + ",\"messages\":["@ + messages_json(
            self.messages@,
        ) + "],\"stream\":"@ + (if self.stream {
            "true"@
        } else {
            "false"@
        }) + "}"@
    }

    /// Writes the request as JSON text.
    pub fn to_json(&self) -> (r: String)
        ensures
            r@ == self.json(),
    {
        let mut r = joined("{\"model\":", quote(self.model.as_str()).as_str());
        r.push_str(",\"messages\":[");
        let ghost head = r@;
        let mut i: usize = 0;
        while i < self.messages.len()
            invariant
                i <= self.messages.len(),
                r@ == head + messages_json(self.messages@.take(i as int)),
            decreases self.messages.len() - i,
        {
            let ghost before = self.messages@.take(i as int);
            let ghost after = self.messages@.take(i + 1);
            assert(after.drop_last() =~= before);
            assert(after.last() == self.messages@[i as int]);
            if i > 0 {
                r.push_str(",");
            }
            r.push_str(self.messages[i].to_json().as_str());
            assert(r@ =~= head + messages_json(after));
            i = i + 1;
        }
        assert(self.messages@.take(i as int) =~= self.messages@);
        r.push_str("],\"stream\":");
        if self.stream {
            r.push_str("true");
        } else {
            r.push_str("false");
        }
        r.push_str("}");
        r
    }
}

impl AskModel {
    /// The echo that answers in place of the model server.
    pub fn echo(&self) -> (r: String)
        ensures
            r@ == echo_text(self.session_id@, self.model@, self.prompt@),
    {
        let mut r = String::new();
        r.push_str("(dev echo)");
        r.push_str(" session=");
        r.push_str(self.session_id.as_str());
        r.push_str(" model=");
        r.push_str(self.model.as_str());
        r.push_str(" -> ");
        r.push_str(self.prompt.as_str());
        assert(r@ =~= echo_text(self.session_id@, self.model@, self.prompt@));
        r
    }
}

impl ModelActor {
    /// The base URL to use, given what the configuration holds.
    pub fn base_url_or_default(configured: Option<String>) -> (r: String)
        ensures
            r@ == base_url_text(configured),
    {
        match configured {
            Some(url) => url,
            None => "http://localhost:11434".to_owned(),
        }
    }

    /// Where the chat call goes: the base URL followed by `/api/chat`.
    pub fn chat_url(&self) -> (r: String)
        ensures
            r@ == chat_url_text(self.base_url@),
    {
        let mut r = self.base_url.clone();
        r.push_str("/api/chat");
        r
    }

    /// The request for a task: its model, its prompt as the one message, of the
    /// role `user`, and no streaming. Nothing of an earlier turn goes along.
    pub fn request_for(msg: &AskModel) -> (r: OllamaRequest)
        ensures
            r.model@ == msg.model@,
            r.messages@.len() == 1,
            r.messages@[0].role@ == "user"@,
            r.messages@[0].content@ == msg.prompt@,
            !r.stream,
            r.json() == payload_text(msg.model@, msg.prompt@),
    {
        let mut messages: Vec<OllamaMessage> = Vec::new();
        messages.push(OllamaMessage { role: "user".to_owned(), content: msg.prompt.clone() });
        let r = OllamaRequest { model: msg.model.clone(), messages, stream: false };
        assert(r.json() =~= payload_text(msg.model@, msg.prompt@));
        r
    }

    /// The body of the chat call for a task, as JSON text.
    pub fn payload(msg: &AskModel) -> (r: String)
        ensures
            r@ == payload_text(msg.model@, msg.prompt@),
    {
        Self::request_for(msg).to_json()
    }

    /// The reply in a document of the model server.
    pub fn normalize(v: &serde_json::Value) -> (r: String)
        ensures
            r@ == normal_text(*v),
    {
        ReplyShape::read(v).text()
    }

    /// The outcome of a success whose body was read as `parsed`: a document
    /// always gives a reply, and only a body that is no JSON gives an error.
    pub fn decode(parsed: Result<serde_json::Value, serde_json::Error>) -> (r: Result<
        String,
        String,
    >)
        ensures
            holds(r, decoded(parsed)),
            r is Ok <==> parsed is Ok,
    {
        match parsed {
            Ok(v) => Ok(Self::normalize(&v)),
            Err(e) => Err(error_message(&e)),
        }
    }

    /// Decides the reply to a task from what came of the call to the model
    /// server. No answer and an answer without a success status both give the
    /// echo; a success whose body is no JSON is the one error; any JSON
    /// document gives a reply.
    pub fn handle(&self, msg: &AskModel, outcome: &Upstream) -> (r: Result<String, String>)
        ensures
            holds(r, reply_of(*msg, *outcome)),
    {
        match outcome {
            Upstream::Unreachable => Ok(msg.echo()),
            Upstream::Answered { status, body } => {
                if 200 <= *status && *status < 300 {
                    Self::decode(parse(body.as_slice()))
                } else {
                    Ok(msg.echo())
                }
            },
        }
    }
}

/// A success whose document holds a string at `message.content` is answered
/// with exactly that string, whatever else the document holds.
pub proof fn law_message_content_is_the_reply(
    task: AskModel,
    status: u16,
    body: Vec<u8>,
    v: serde_json::Value,
    s: Seq<char>,
)
    requires
        is_success(status),
        json_parse(body@) == Ok::<serde_json::Value, serde_json::Error>(v),
        message_content(v) == Some(s),
    ensures
        reply_of(task, Upstream::Answered { status, body }) == Ok::<Seq<char>, Seq<char>>(s),
{
}

/// A success whose document holds no string at `message.content` but one at
/// `reply` is answered with exactly that string.
pub proof fn law_reply_member_is_the_reply(
    task: AskModel,
    status: u16,
    body: Vec<u8>,
    v: serde_json::Value,
    s: Seq<char>,
)
    requires
        is_success(status),
        json_parse(body@) == Ok::<serde_json::Value, serde_json::Error>(v),
        message_content(v) is None,
        json_field(v, "reply"@) == Some(s),
    ensures
        reply_of(task, Upstream::Answered { status, body }) == Ok::<Seq<char>, Seq<char>>(s),
{
}

/// A success whose body is a JSON document is never an error: where neither
/// member is a string, the reply is the document written out again.
pub proof fn law_any_document_is_a_reply(
    task: AskModel,
    status: u16,
    body: Vec<u8>,
    v: serde_json::Value,
)
    requires
        is_success(status),
        json_parse(body@) == Ok::<serde_json::Value, serde_json::Error>(v),
    ensures
        reply_of(task, Upstream::Answered { status, body }) is Ok,
        message_content(v) is None && json_field(v, "reply"@) is None ==> reply_of(
            task,
            Upstream::Answered { status, body },
        ) == Ok::<Seq<char>, Seq<char>>(json_text(v)),
{
}

/// The outcome is an error on one kind of input only: a success status with a
/// body that is no JSON.
pub proof fn law_only_a_bad_body_fails(task: AskModel, outcome: Upstream)
    ensures
        reply_of(task, outcome) is Err <==> (outcome matches Upstream::Answered { status, body }
            && is_success(status) && json_parse(body@) is Err),
{
}

/// The echo holds the marker `(dev echo)`, the session, the model and the
/// prompt, each as it was given.
pub proof fn law_echo_names_its_task(session: Seq<char>, model: Seq<char>, prompt: Seq<char>)
    ensures
        contains(echo_text(session, model, prompt), "(dev echo)"@),
        contains(echo_text(session, model, prompt), session),
        contains(echo_text(session, model, prompt), model),
        contains(echo_text(session, model, prompt), prompt),
{
    let echo = echo_text(session, model, prompt);
    let none = Seq::<char>::empty();
    let marker = "(dev echo)"@;
    let s = " session="@;
    let m = " model="@;
    let p = " -> "@;
    lemma_contains_between(none, marker, s + session + m + model + p + prompt);
    assert(echo =~= none + marker + (s + session + m + model + p + prompt));
    lemma_contains_between(marker + s, session, m + model + p + prompt);
    assert(echo =~= marker + s + session + (m + model + p + prompt));
    lemma_contains_between(marker + s + session + m, model, p + prompt);
    assert(echo =~= marker + s + session + m + model + (p + prompt));
    lemma_contains_between(marker + s + session + m + model + p, prompt, none);
    assert(echo =~= marker + s + session + m + model + p + prompt + none);
}

/// With no answer from the model server the reply is the echo of the task, and
/// so holds the marker, the session, the model and the prompt.
pub proof fn law_unreachable_gives_the_echo(task: AskModel)
    ensures
        reply_of(task, Upstream::Unreachable) == Ok::<Seq<char>, Seq<char>>(
            echo_text(task.session_id@, task.model@, task.prompt@),
        ),
        contains(echo_text(task.session_id@, task.model@, task.prompt@), "(dev echo)"@),
        contains(echo_text(task.session_id@, task.model@, task.prompt@), task.session_id@),
        contains(echo_text(task.session_id@, task.model@, task.prompt@), task.model@),
        contains(echo_text(task.session_id@, task.model@, task.prompt@), task.prompt@),
{
    law_echo_names_its_task(task.session_id@, task.model@, task.prompt@);
}

/// An answer whose status is not one of success counts as no answer at all,
/// whatever its body.
pub proof fn law_failure_status_counts_as_unreachable(task: AskModel, status: u16, body: Vec<u8>)
    requires
        !is_success(status),
    ensures
        reply_of(task, Upstream::Answered { status, body }) == reply_of(
            task,
            Upstream::Unreachable,
        ),
{
}

} // verus!
