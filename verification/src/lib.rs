//! Dispatch core for a chat platform's slash-command webhooks.
//!
//! An inbound invocation arrives as a flat record of strings (a [`Command`]).
//! A [`Mux`] owns an ordered table of routes, each binding a [`Matcher`] to a
//! [`Handler`]; dispatching selects the first route whose matcher accepts the
//! command and invokes its handler with the command, the matcher's captures,
//! and a [`Responder`] for deferred replies. [`TokenValidator`] wraps a
//! handler with a per-route shared-secret check, and [`Response`] with its
//! builders shapes the reply payload together with its JSON encoding.

mod text;
pub mod command;
pub mod captures;
pub mod response;
pub mod json;
pub mod matcher;
pub mod handler;
pub mod responder;
pub mod mux;

pub use command::Command;
pub use command::CommandView;
pub use captures::Captures;
pub use matcher::Matcher;
pub use matcher::MatchCommand;
pub use matcher::MatchSubCommand;
pub use matcher::MatchText;
pub use handler::Handler;
pub use handler::TokenValidator;
pub use handler::FnHandler;
pub use responder::Responder;
pub use responder::DefaultResponder;
pub use responder::DiscardResponder;
pub use mux::Mux;
pub use mux::Route;
pub use mux::RouteHandler;
pub use response::Response;
pub use response::ResponseBuilder;
pub use response::Attachment;
pub use response::AttachmentBuilder;
pub use response::Field;
