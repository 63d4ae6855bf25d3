//! A chat relay: the message contract between a front end and a local model
//! server, the shape of the call to that server, the rule that picks the reply
//! out of whatever the server answered, and the echo that stands in for a reply
//! when the server cannot be used.
//!
//! The crate decides and computes; it opens no socket. A caller performs the
//! call described by [`mediator::ModelActor::chat_url`] and
//! [`mediator::ModelActor::request_for`], reports what happened as an
//! [`mediator::Upstream`], and gets the reply from
//! [`mediator::ModelActor::handle`].

pub mod text;
pub mod json;
pub mod mediator;
pub mod gateway;

pub use gateway::{accept, chat_endpoint, ChatIn, ChatOut, HttpReply, BAD_REQUEST};
pub use mediator::{AskModel, ModelActor, OllamaMessage, OllamaRequest, ReplyShape, Upstream};
