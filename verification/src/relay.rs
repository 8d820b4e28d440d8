//! Routing of the board's events to the handler of their part of the board.

use vstd::prelude::*;
use crate::effects::Effect;
use crate::handlers::comment::CommentHandler;
use crate::handlers::image::ImageHandler;
use crate::handlers::logging::LoggingHandler;
use crate::handlers::user::UserHandler;
use crate::models::{HandlerEnum, Session, ShimmieJson, ShimmieSections};

verus! {

/// Relays the board's events: posts and comments to channel `ch`, users to
/// the log channel `lch`, links to the board at `server_url`.
pub struct JsonHandler {
    pub ch: u64,
    pub lch: u64,
    pub server_url: String,
}

impl JsonHandler {
    /// The handler of events about `section`.
    pub open spec fn handler_of(&self, section: ShimmieSections) -> HandlerEnum {
        match section {
            ShimmieSections::Comment => HandlerEnum::Comment(CommentHandler { ch: self.ch, server_url: self.server_url }),
            ShimmieSections::Post => HandlerEnum::Post(ImageHandler { ch: self.ch, server_url: self.server_url }),
            ShimmieSections::User => HandlerEnum::User(UserHandler { ch: self.lch, server_url: self.server_url }),
            ShimmieSections::Log => HandlerEnum::Log(LoggingHandler {}),
        }
    }

    /// The handler of events about `section`.
    pub fn handler_for(&self, section: ShimmieSections) -> (h: HandlerEnum)
        ensures
            h == self.handler_of(section),
    {
        match section {
            ShimmieSections::Comment => HandlerEnum::Comment(
                CommentHandler { ch: self.ch, server_url: self.server_url.clone() },
            ),
            ShimmieSections::Post => HandlerEnum::Post(ImageHandler { ch: self.ch, server_url: self.server_url.clone() }),
            ShimmieSections::User => HandlerEnum::User(UserHandler { ch: self.lch, server_url: self.server_url.clone() }),
            ShimmieSections::Log => HandlerEnum::Log(LoggingHandler {}),
        }
    }

    /// An event arrived: hand it to the handler of its section, which starts
    /// on it according to its kind.
    pub fn on_receive(&self, msg: ShimmieJson) -> (r: (HandlerEnum, Session, Effect))
        ensures
            r.0 == self.handler_of(msg.section),
            r.0.opened(msg.type_, msg.fields, r.1, r.2),
    {
        let handler = self.handler_for(msg.section);
        let (session, effect) = handler.start(msg.type_, msg.fields);
        (handler, session, effect)
    }
}

} // verus!
