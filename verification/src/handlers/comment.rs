//! Comments: announced as replies to their post's message, edited and deleted
//! along with the board.

use vstd::prelude::*;
use crate::effects::{Cause, Effect, Reply, effect_ids_valid, reply_ids_valid, report, reports};
use crate::embed::{Embed, OutgoingMessage, comment_card, comment_card_view};
use crate::models::{Fields, HandlerTrait, ShimmieSectionTypes, num_or_zero, number_or_zero, string_or_empty, text_or_empty};

verus! {

/// Announces comments in channel `ch` of the board at `server_url`.
pub struct CommentHandler {
    pub ch: u64,
    pub server_url: String,
}

/// Where a comment event stands.
#[derive(Debug)]
pub enum CommentSession {
    Finished,
    /// New comment: waiting for a database connection.
    Connecting { embed: Embed, post_id: i32, comment_id: i32 },
    /// New comment: waiting for the message of its post.
    FindingPost { embed: Embed, post_id: i32, comment_id: i32 },
    /// New comment: waiting for the announcement to be posted.
    Sending { post_id: i32, comment_id: i32 },
    /// Edited comment: waiting for a database connection.
    EditConnecting { embed: Embed, comment_id: i32 },
    /// Edited comment: waiting for the comment's message.
    EditFinding { embed: Embed },
    /// Deleted comment: waiting for a database connection.
    DeleteConnecting { comment_id: i32 },
    /// Deleted comment: waiting for the comment's message.
    DeleteFinding { comment_id: i32 },
    /// Deleted comment: waiting for its message to be deleted.
    DeleteRemovingMessage { comment_id: i32 },
}

impl CommentSession {
    /// Steps left at most before the session is finished.
    pub open spec fn rank(self) -> nat {
        match self {
            CommentSession::Finished => 0,
            CommentSession::Connecting { .. } => 3,
            CommentSession::FindingPost { .. } => 2,
            CommentSession::Sending { .. } => 1,
            CommentSession::EditConnecting { .. } => 2,
            CommentSession::EditFinding { .. } => 1,
            CommentSession::DeleteConnecting { .. } => 3,
            CommentSession::DeleteFinding { .. } => 2,
            CommentSession::DeleteRemovingMessage { .. } => 1,
        }
    }

    pub fn is_finished(&self) -> (b: bool)
        ensures
            b == (*self is Finished),
    {
        match self {
            CommentSession::Finished => true,
            _ => false,
        }
    }
}

impl CommentHandler {
    /// The embed of comment `comment_id` by `username` on post `post_id`.
    pub fn embed(&self, post_id: i32, username: String, comment_id: i32, comment: String) -> (e: Embed)
        ensures
            e@ == comment_card_view(self.server_url@, post_id as int, username@, comment_id as int, comment@),
    {
        comment_card(self.server_url.as_str(), post_id as i64, username, comment_id as i64, comment)
    }

    /// The embed of the comment that `fields` describe (missing fields read as zero or empty).
    pub open spec fn embed_of(&self, fields: Fields) -> crate::embed::EmbedView {
        comment_card_view(
            self.server_url@,
            num_or_zero(fields.post_id) as int,
            text_or_empty(fields.username),
            num_or_zero(fields.comment_id) as int,
            text_or_empty(fields.message),
        )
    }

    fn embed_fields(&self, fields: Fields) -> (r: (Embed, i32, i32))
        ensures
            r.0@ == self.embed_of(fields),
            r.1 == num_or_zero(fields.post_id),
            r.2 == num_or_zero(fields.comment_id),
    {
        let post_id = number_or_zero(fields.post_id);
        let comment_id = number_or_zero(fields.comment_id);
        let embed = self.embed(post_id, string_or_empty(fields.username), comment_id, string_or_empty(fields.message));
        (embed, post_id, comment_id)
    }

    /// What starting on an event of kind `kind` with `fields` gives: the
    /// first session and request.
    pub open spec fn opened(&self, kind: ShimmieSectionTypes, fields: Fields, s: CommentSession, e: Effect) -> bool {
        &&& e == Effect::Connect
        &&& match kind {
            ShimmieSectionTypes::Create => s matches CommentSession::Connecting { embed, post_id, comment_id }
                && embed@ == self.embed_of(fields) && post_id == num_or_zero(fields.post_id)
                && comment_id == num_or_zero(fields.comment_id),
            ShimmieSectionTypes::Edit => s matches CommentSession::EditConnecting { embed, comment_id }
                && embed@ == self.embed_of(fields) && comment_id == num_or_zero(fields.comment_id),
            ShimmieSectionTypes::Delete => s == (CommentSession::DeleteConnecting {
                comment_id: num_or_zero(fields.comment_id),
            }),
        }
    }

    /// The replies a session can go on with: a stored message id must be a
    /// valid (positive) Discord id.
    pub open spec fn accepts(s: CommentSession, r: Reply) -> bool {
        match s {
            CommentSession::FindingPost { .. } | CommentSession::EditFinding { .. }
            | CommentSession::DeleteFinding { .. } => r matches Reply::Found(m) ==> m > 0,
            _ => true,
        }
    }

    /// The step from session `s` on reply `r` to session `s2` with request `e`.
    pub open spec fn next(&self, s: CommentSession, r: Reply, s2: CommentSession, e: Effect) -> bool {
        match s {
            CommentSession::Finished => s2 is Finished && e is Nothing,
            CommentSession::Connecting { embed, post_id, comment_id } => if r is Failed {
                s2 is Finished && reports(e, "db ded "@, Cause::LastReply)
            } else {
                s2 == (CommentSession::FindingPost { embed, post_id, comment_id })
                    && e == (Effect::FindPostMessage { post_id })
            },
            CommentSession::FindingPost { embed, post_id, comment_id } => {
                &&& s2 == (CommentSession::Sending { post_id, comment_id })
                &&& e == (Effect::SendEmbed {
                    channel: self.ch,
                    message: OutgoingMessage {
                        embed,
                        reply_to: match r {
                            Reply::Found(m) => Some(m as u64),
                            _ => None,
                        },
                    },
                })
            },
            CommentSession::Sending { post_id, comment_id } => s2 is Finished && match r {
                Reply::Sent(id) => e == (Effect::SaveComment { comment_id, post_id, message_id: id as i64 }),
                _ => reports(e, "Error sending comment: "@, Cause::LastReply),
            },
            CommentSession::EditConnecting { embed, comment_id } => if r is Failed {
                s2 is Finished && reports(e, "Comment editing failed"@, Cause::Nothing)
            } else {
                s2 == (CommentSession::EditFinding { embed }) && e == (Effect::FindCommentMessage { comment_id })
            },
            CommentSession::EditFinding { embed } => s2 is Finished && match r {
                Reply::Found(m) => e == (Effect::EditEmbed { channel: self.ch, message_id: m as u64, embed }),
                _ => e is Nothing,
            },
            CommentSession::DeleteConnecting { comment_id } => if r is Failed {
                s2 is Finished && reports(e, "Comment deleting failed"@, Cause::Nothing)
            } else {
                s2 == (CommentSession::DeleteFinding { comment_id }) && e == (Effect::FindCommentMessage { comment_id })
            },
            CommentSession::DeleteFinding { comment_id } => match r {
                Reply::Found(m) => s2 == (CommentSession::DeleteRemovingMessage { comment_id })
                    && e == (Effect::DeleteMessage { channel: self.ch, message_id: m as u64 }),
                _ => s2 is Finished && e is Nothing,
            },
            CommentSession::DeleteRemovingMessage { comment_id } => s2 is Finished
                && e == (Effect::RemoveComment { comment_id }),
        }
    }

    /// Goes on with session `s` after reply `r` to its last request.
    pub fn resume(&self, s: CommentSession, r: Reply) -> (res: (CommentSession, Effect))
        requires
            Self::accepts(s, r),
        ensures
            self.next(s, r, res.0, res.1),
            s is Finished || res.0.rank() < s.rank(),
            reply_ids_valid(r) ==> effect_ids_valid(res.1),
    {
        match s {
            CommentSession::Finished => (CommentSession::Finished, Effect::Nothing),
            CommentSession::Connecting { embed, post_id, comment_id } => match r {
                Reply::Failed => (CommentSession::Finished, report("db ded ", Cause::LastReply)),
                _ => (CommentSession::FindingPost { embed, post_id, comment_id }, Effect::FindPostMessage { post_id }),
            },
            CommentSession::FindingPost { embed, post_id, comment_id } => {
                let reply_to = match r {
                    Reply::Found(m) => Some(m as u64),
                    _ => None,
                };
                (
                    CommentSession::Sending { post_id, comment_id },
                    Effect::SendEmbed { channel: self.ch, message: OutgoingMessage { embed, reply_to } },
                )
            },
            CommentSession::Sending { post_id, comment_id } => match r {
                Reply::Sent(id) => (
                    CommentSession::Finished,
                    Effect::SaveComment { comment_id, post_id, message_id: id as i64 },
                ),
                _ => (CommentSession::Finished, report("Error sending comment: ", Cause::LastReply)),
            },
            CommentSession::EditConnecting { embed, comment_id } => match r {
                Reply::Failed => (CommentSession::Finished, report("Comment editing failed", Cause::Nothing)),
                _ => (CommentSession::EditFinding { embed }, Effect::FindCommentMessage { comment_id }),
            },
            CommentSession::EditFinding { embed } => match r {
                Reply::Found(m) => (
                    CommentSession::Finished,
                    Effect::EditEmbed { channel: self.ch, message_id: m as u64, embed },
                ),
                _ => (CommentSession::Finished, Effect::Nothing),
            },
            CommentSession::DeleteConnecting { comment_id } => match r {
                Reply::Failed => (CommentSession::Finished, report("Comment deleting failed", Cause::Nothing)),
                _ => (CommentSession::DeleteFinding { comment_id }, Effect::FindCommentMessage { comment_id }),
            },
            CommentSession::DeleteFinding { comment_id } => match r {
                Reply::Found(m) => (
                    CommentSession::DeleteRemovingMessage { comment_id },
                    Effect::DeleteMessage { channel: self.ch, message_id: m as u64 },
                ),
                _ => (CommentSession::Finished, Effect::Nothing),
            },
            CommentSession::DeleteRemovingMessage { comment_id } => (
                CommentSession::Finished,
                Effect::RemoveComment { comment_id },
            ),
        }
    }
}

impl HandlerTrait for CommentHandler {
    type Session = CommentSession;

    /// A comment was made: announce it, as a reply to its post's message when
    /// that is known, and record the announcement.
    fn create(&self, fields: Fields) -> (r: (CommentSession, Effect))
        ensures
            self.opened(ShimmieSectionTypes::Create, fields, r.0, r.1),
    {
        let (embed, post_id, comment_id) = self.embed_fields(fields);
        (CommentSession::Connecting { embed, post_id, comment_id }, Effect::Connect)
    }

    /// A comment was edited: replace the embed of its announcement.
    fn edit(&self, fields: Fields) -> (r: (CommentSession, Effect))
        ensures
            self.opened(ShimmieSectionTypes::Edit, fields, r.0, r.1),
    {
        let (embed, _post_id, comment_id) = self.embed_fields(fields);
        (CommentSession::EditConnecting { embed, comment_id }, Effect::Connect)
    }

    /// A comment was deleted: delete its announcement and its record.
    fn delete(&self, fields: Fields) -> (r: (CommentSession, Effect))
        ensures
            self.opened(ShimmieSectionTypes::Delete, fields, r.0, r.1),
    {
        (CommentSession::DeleteConnecting { comment_id: number_or_zero(fields.comment_id) }, Effect::Connect)
    }
}

} // verus!
