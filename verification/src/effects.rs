//! The vocabulary between the verified handlers and the runtime that performs
//! their requests: what a handler asks for next (`Effect`) and what came of
//! the request it made last (`Reply`).

use vstd::prelude::*;
use vstd::string::*;
use crate::embed::{Embed, OutgoingMessage};
use crate::errors::MjokError;

verus! {

/// What a report adds after its text.
#[derive(Debug)]
pub enum Cause {
    /// Nothing: the text is the whole line.
    Nothing,
    /// The error that the last request ended with.
    LastReply,
    /// The failure to read a stored message id (this number) as an unsigned id.
    Conversion(i64),
    /// An error of the bot itself.
    Own(MjokError),
}

/// A request of a handler to the runtime.
#[derive(Debug)]
pub enum Effect {
    /// No request: the handler is done.
    Nothing,
    /// Take a connection from the database pool.
    Connect,
    /// Look up the message that announced post `post_id`.
    FindPostMessage { post_id: i32 },
    /// Look up the message that announced comment `comment_id`.
    FindCommentMessage { comment_id: i32 },
    /// Look up the messages that announced the comments of post `post_id`.
    FindCommentMessagesOfPost { post_id: i32 },
    /// Post a message to a channel.
    SendEmbed { channel: u64, message: OutgoingMessage },
    /// Replace the embed of a message.
    EditEmbed { channel: u64, message_id: u64, embed: Embed },
    /// Delete a message.
    DeleteMessage { channel: u64, message_id: u64 },
    /// Post a plain text message to a channel.
    Say { channel: u64, text: String },
    /// Look up what kind of channel a channel is.
    FetchChannel { channel: u64 },
    /// Publish a message of an announcement channel to its followers.
    Crosspost { channel: u64, message_id: u64 },
    /// Record which message announced a post.
    SavePost { post_id: i32, message_id: i64 },
    /// Record which message announced a comment, and the comment's post.
    SaveComment { comment_id: i32, post_id: i32, message_id: i64 },
    /// Forget the record of a post.
    RemovePost { post_id: i32 },
    /// Forget the record of a comment.
    RemoveComment { comment_id: i32 },
    /// Forget the records of all comments of a post.
    RemoveCommentsOfPost { post_id: i32 },
    /// Write a line to the log.
    Report { text: String, cause: Cause },
}

/// What came of a request.
#[derive(Debug)]
pub enum Reply {
    /// It was carried out.
    Done,
    /// It failed; the runtime keeps the error for a report.
    Failed,
    /// A lookup found this stored message id.
    Found(i64),
    /// A lookup found nothing (or failed).
    Missing,
    /// A lookup of several ids found these.
    FoundAll(Vec<i64>),
    /// A message was posted under this id.
    Sent(u64),
    /// The channel is a guild channel; `news` when it is an announcement channel.
    GuildChannel { news: bool },
    /// The channel is not a guild channel.
    NotGuild,
}

/// `e` writes `text` to the log, followed by `cause`.
pub open spec fn reports(e: Effect, text: Seq<char>, cause: Cause) -> bool {
    e matches Effect::Report { text: t, cause: c } && t@ == text && c == cause
}

/// `e` writes `text` to the log, followed by the bot's own error with message `msg`.
pub open spec fn reports_own(e: Effect, text: Seq<char>, msg: Seq<char>) -> bool {
    e matches Effect::Report { text: t, cause: Cause::Own(err) } && t@ == text && err.msg@ == msg
}

/// Every message id that `e` hands to Discord is a valid (non-zero) id.
pub open spec fn effect_ids_valid(e: Effect) -> bool {
    match e {
        Effect::SendEmbed { message, .. } => message.reply_to matches Some(id) ==> id > 0,
        Effect::EditEmbed { message_id, .. } => message_id > 0,
        Effect::DeleteMessage { message_id, .. } => message_id > 0,
        Effect::Crosspost { message_id, .. } => message_id > 0,
        _ => true,
    }
}

/// Every message id in `r` that came from Discord is a valid (non-zero) id.
pub open spec fn reply_ids_valid(r: Reply) -> bool {
    r matches Reply::Sent(id) ==> id > 0
}

pub(crate) fn report(text: &str, cause: Cause) -> (e: Effect)
    ensures
        reports(e, text@, cause),
{
    Effect::Report { text: String::from_str(text), cause }
}

pub(crate) fn report_own(text: &str, msg: &str) -> (e: Effect)
    ensures
        reports_own(e, text@, msg@),
{
    let err = MjokError::new_str(msg);
    Effect::Report { text: String::from_str(text), cause: Cause::Own(*err) }
}

} // verus!
