//! Posts: announced once (an announcement that exists is edited instead),
//! crossposted from announcement channels, and deleted with their comments.

use vstd::prelude::*;
use crate::effects::{Cause, Effect, Reply, effect_ids_valid, reply_ids_valid, report, report_own, reports, reports_own};
use crate::embed::{Embed, EmbedView, OutgoingMessage, post_card, post_card_view};
use crate::media::{MimeType, MimeView, jpeg_view};
use crate::models::{Fields, HandlerTrait, ShimmieSectionTypes, num_or_zero, number_or_zero, text_or_empty};

verus! {

/// Announces posts in channel `ch` of the board at `server_url`.
pub struct ImageHandler {
    pub ch: u64,
    pub server_url: String,
}

/// Where a post event stands.
#[derive(Debug)]
pub enum PostSession {
    Finished,
    /// New post: waiting for a database connection.
    Connecting { embed: Embed, post_id: i32 },
    /// New post: waiting for an earlier announcement of the post.
    Finding { embed: Embed, post_id: i32 },
    /// New post: waiting for the earlier announcement to be edited.
    Editing,
    /// New post: waiting for the announcement to be posted.
    Sending { post_id: i32 },
    /// New post: waiting for the kind of the channel.
    CheckingChannel { post_id: i32, message_id: u64 },
    /// New post: waiting for the announcement to be crossposted.
    Crossposting { post_id: i32, message_id: u64 },
    /// Edited post: waiting for a database connection.
    EditConnecting { embed: Embed, post_id: i32 },
    /// Edited post: waiting for the post's announcement.
    EditFinding { embed: Embed },
    /// Deleted post: waiting for a database connection.
    DeleteConnecting { post_id: i32 },
    /// Deleted post: waiting for the post's announcement.
    DeleteFinding { post_id: i32 },
    /// Deleted post: waiting for its announcement to be deleted.
    DeleteRemovingMessage { post_id: i32 },
    /// Deleted post: waiting for its record to be forgotten.
    DeleteRemovingRecord { post_id: i32 },
    /// Deleted post: waiting for the announcements of its comments.
    DeleteFindingComments { post_id: i32 },
    /// Deleted post: deleting the comment announcements `messages` from index `next` on.
    DeleteRemovingComments { post_id: i32, messages: Vec<i64>, next: usize },
}

impl PostSession {
    /// The stage of the session; later stages are lower.
    pub open spec fn stage(self) -> nat {
        match self {
            PostSession::Finished => 0,
            PostSession::Connecting { .. } => 5,
            PostSession::Finding { .. } => 4,
            PostSession::Editing => 1,
            PostSession::Sending { .. } => 3,
            PostSession::CheckingChannel { .. } => 2,
            PostSession::Crossposting { .. } => 1,
            PostSession::EditConnecting { .. } => 2,
            PostSession::EditFinding { .. } => 1,
            PostSession::DeleteConnecting { .. } => 6,
            PostSession::DeleteFinding { .. } => 5,
            PostSession::DeleteRemovingMessage { .. } => 4,
            PostSession::DeleteRemovingRecord { .. } => 3,
            PostSession::DeleteFindingComments { .. } => 2,
            PostSession::DeleteRemovingComments { .. } => 1,
        }
    }

    /// Steps left within the stage.
    pub open spec fn remaining(self) -> nat {
        match self {
            PostSession::DeleteRemovingComments { messages, next, .. } => if next < messages.len() {
                (messages.len() - next) as nat
            } else {
                0
            },
            _ => 0,
        }
    }

    /// The Discord message ids the session holds are valid (non-zero).
    pub open spec fn ids_valid(self) -> bool {
        match self {
            PostSession::CheckingChannel { message_id, .. } => message_id > 0,
            PostSession::Crossposting { message_id, .. } => message_id > 0,
            _ => true,
        }
    }

    /// `self` is strictly closer to the end than `other`.
    pub open spec fn closer_than(self, other: PostSession) -> bool {
        ||| self.stage() < other.stage()
        ||| self.stage() == other.stage() && self.remaining() < other.remaining()
    }

    pub fn is_finished(&self) -> (b: bool)
        ensures
            b == (*self is Finished),
    {
        match self {
            PostSession::Finished => true,
            _ => false,
        }
    }
}

impl ImageHandler {
    /// The embed of post `post_id` by `username`, whose file has the given
    /// hash, media type and size.
    pub fn embed(&self, post_id: i32, username: String, hash: String, post_mime: MimeType, size: i32) -> (e: Embed)
        ensures
            e@ == post_card_view(self.server_url@, post_id as int, username@, hash@, post_mime@, size as int),
    {
        post_card(self.server_url.as_str(), post_id as i64, username, hash, &post_mime, size as i64)
    }

    /// The media type that `fields` name, `image/jpeg` when they name none.
    pub open spec fn mime_of(fields: Fields) -> MimeView {
        match fields.mime {
            Some(m) => m@,
            None => jpeg_view(),
        }
    }

    /// The embed of the post that `fields` describe (missing numbers read as
    /// zero, missing texts as empty, a missing media type as `image/jpeg`).
    pub open spec fn embed_of(&self, fields: Fields) -> EmbedView {
        post_card_view(
            self.server_url@,
            num_or_zero(fields.post_id) as int,
            text_or_empty(fields.username),
            text_or_empty(fields.hash),
            Self::mime_of(fields),
            num_or_zero(fields.size) as int,
        )
    }

    /// The embed of the post that `fields` describe.
    pub fn embed_fields(&self, fields: &Fields) -> (e: Embed)
        ensures
            e@ == self.embed_of(*fields),
    {
        let username = match &fields.username {
            Some(s) => s.clone(),
            None => String::new(),
        };
        let hash = match &fields.hash {
            Some(s) => s.clone(),
            None => String::new(),
        };
        let post_mime = match &fields.mime {
            Some(m) => m.duplicate(),
            None => MimeType::jpeg(),
        };
        self.embed(number_or_zero(fields.post_id), username, hash, post_mime, number_or_zero(fields.size))
    }

    /// What starting on an event of kind `kind` with `fields` gives: the
    /// first session and request.
    pub open spec fn opened(&self, kind: ShimmieSectionTypes, fields: Fields, s: PostSession, e: Effect) -> bool {
        &&& e == Effect::Connect
        &&& match kind {
            ShimmieSectionTypes::Create => s matches PostSession::Connecting { embed, post_id }
                && embed@ == self.embed_of(fields) && post_id == num_or_zero(fields.post_id),
            ShimmieSectionTypes::Edit => s matches PostSession::EditConnecting { embed, post_id }
                && embed@ == self.embed_of(fields) && post_id == num_or_zero(fields.post_id),
            ShimmieSectionTypes::Delete => s == (PostSession::DeleteConnecting { post_id: num_or_zero(fields.post_id) }),
        }
    }

    /// The replies a session can go on with: a stored message id that is
    /// turned into a Discord id must be valid (positive; a new post only
    /// needs it non-zero, a negative one is reported).
    pub open spec fn accepts(s: PostSession, r: Reply) -> bool {
        match s {
            PostSession::Finding { .. } => r matches Reply::Found(m) ==> m != 0,
            PostSession::EditFinding { .. } | PostSession::DeleteFinding { .. } => r matches Reply::Found(m) ==> m > 0,
            PostSession::DeleteFindingComments { .. } => r matches Reply::FoundAll(v) ==> (v@.len() > 0 ==> v@[0] > 0),
            PostSession::DeleteRemovingComments { messages, next, .. } => next < messages@.len() ==> messages@[next as int] > 0,
            _ => true,
        }
    }

    /// The step of a deletion that goes through the comment announcements
    /// `messages` from index `i` on.
    pub open spec fn sweep(&self, post_id: i32, messages: Vec<i64>, i: usize, s2: PostSession, e: Effect) -> bool {
        if i < messages@.len() {
            s2 == (PostSession::DeleteRemovingComments { post_id, messages, next: (i + 1) as usize })
                && e == (Effect::DeleteMessage { channel: self.ch, message_id: messages@[i as int] as u64 })
        } else {
            s2 is Finished && e == (Effect::RemoveCommentsOfPost { post_id })
        }
    }

    /// The step from session `s` on reply `r` to session `s2` with request `e`.
    pub open spec fn next(&self, s: PostSession, r: Reply, s2: PostSession, e: Effect) -> bool {
        match s {
            PostSession::Finished => s2 is Finished && e is Nothing,
            PostSession::Connecting { embed, post_id } => if r is Failed {
                s2 is Finished && reports(e, "db ded "@, Cause::LastReply)
            } else {
                s2 == (PostSession::Finding { embed, post_id }) && e == (Effect::FindPostMessage { post_id })
            },
            PostSession::Finding { embed, post_id } => match r {
                Reply::Found(m) => if m < 0 {
                    s2 is Finished && reports(e, "db ded "@, Cause::Conversion(m))
                } else {
                    s2 is Editing && e == (Effect::EditEmbed { channel: self.ch, message_id: m as u64, embed })
                },
                _ => s2 == (PostSession::Sending { post_id })
                    && e == (Effect::SendEmbed { channel: self.ch, message: OutgoingMessage { embed, reply_to: None } }),
            },
            PostSession::Editing => s2 is Finished && if r is Failed {
                reports(e, "db ded "@, Cause::LastReply)
            } else {
                e is Nothing
            },
            PostSession::Sending { post_id } => match r {
                Reply::Sent(id) => s2 == (PostSession::CheckingChannel { post_id, message_id: id })
                    && e == (Effect::FetchChannel { channel: self.ch }),
                _ => s2 is Finished && reports(e, "db ded "@, Cause::LastReply),
            },
            PostSession::CheckingChannel { post_id, message_id } => match r {
                Reply::GuildChannel { news } => if news {
                    s2 == (PostSession::Crossposting { post_id, message_id })
                        && e == (Effect::Crosspost { channel: self.ch, message_id })
                } else {
                    s2 is Finished && e == (Effect::SavePost { post_id, message_id: message_id as i64 })
                },
                Reply::NotGuild => s2 is Finished && reports_own(e, "db ded "@, "Guild Missing"@),
                _ => s2 is Finished && reports(e, "db ded "@, Cause::LastReply),
            },
            PostSession::Crossposting { post_id, message_id } => s2 is Finished && if r is Failed {
                reports(e, "db ded "@, Cause::LastReply)
            } else {
                e == (Effect::SavePost { post_id, message_id: message_id as i64 })
            },
            PostSession::EditConnecting { embed, post_id } => if r is Failed {
                s2 is Finished && reports(e, "Error editing post"@, Cause::Nothing)
            } else {
                s2 == (PostSession::EditFinding { embed }) && e == (Effect::FindPostMessage { post_id })
            },
            PostSession::EditFinding { embed } => s2 is Finished && match r {
                Reply::Found(m) => e == (Effect::EditEmbed { channel: self.ch, message_id: m as u64, embed }),
                _ => e is Nothing,
            },
            PostSession::DeleteConnecting { post_id } => if r is Failed {
                s2 is Finished && reports(e, "Post deletion failed"@, Cause::Nothing)
            } else {
                s2 == (PostSession::DeleteFinding { post_id }) && e == (Effect::FindPostMessage { post_id })
            },
            PostSession::DeleteFinding { post_id } => match r {
                Reply::Found(m) => s2 == (PostSession::DeleteRemovingMessage { post_id })
                    && e == (Effect::DeleteMessage { channel: self.ch, message_id: m as u64 }),
                _ => s2 == (PostSession::DeleteFindingComments { post_id })
                    && e == (Effect::FindCommentMessagesOfPost { post_id }),
            },
            PostSession::DeleteRemovingMessage { post_id } => s2 == (PostSession::DeleteRemovingRecord { post_id })
                && e == (Effect::RemovePost { post_id }),
            PostSession::DeleteRemovingRecord { post_id } => s2 == (PostSession::DeleteFindingComments { post_id })
                && e == (Effect::FindCommentMessagesOfPost { post_id }),
            PostSession::DeleteFindingComments { post_id } => match r {
                Reply::FoundAll(v) => self.sweep(post_id, v, 0, s2, e),
                _ => s2 is Finished && e == (Effect::RemoveCommentsOfPost { post_id }),
            },
            PostSession::DeleteRemovingComments { post_id, messages, next } => self.sweep(post_id, messages, next, s2, e),
        }
    }

    fn sweep_step(&self, post_id: i32, messages: Vec<i64>, i: usize) -> (res: (PostSession, Effect))
        requires
            i < messages@.len() ==> messages@[i as int] > 0,
        ensures
            self.sweep(post_id, messages, i, res.0, res.1),
            effect_ids_valid(res.1),
    {
        if i < messages.len() {
            let m = messages[i];
            (
                PostSession::DeleteRemovingComments { post_id, messages, next: i + 1 },
                Effect::DeleteMessage { channel: self.ch, message_id: m as u64 },
            )
        } else {
            (PostSession::Finished, Effect::RemoveCommentsOfPost { post_id })
        }
    }

    /// Goes on with session `s` after reply `r` to its last request.
    pub fn resume(&self, s: PostSession, r: Reply) -> (res: (PostSession, Effect))
        requires
            Self::accepts(s, r),
        ensures
            self.next(s, r, res.0, res.1),
            s is Finished || res.0.closer_than(s),
            reply_ids_valid(r) && s.ids_valid() ==> effect_ids_valid(res.1) && res.0.ids_valid(),
    {
        match s {
            PostSession::Finished => (PostSession::Finished, Effect::Nothing),
            PostSession::Connecting { embed, post_id } => match r {
                Reply::Failed => (PostSession::Finished, report("db ded ", Cause::LastReply)),
                _ => (PostSession::Finding { embed, post_id }, Effect::FindPostMessage { post_id }),
            },
            PostSession::Finding { embed, post_id } => match r {
                Reply::Found(m) => if m < 0 {
                    (PostSession::Finished, report("db ded ", Cause::Conversion(m)))
                } else {
                    (PostSession::Editing, Effect::EditEmbed { channel: self.ch, message_id: m as u64, embed })
                },
                _ => (
                    PostSession::Sending { post_id },
                    Effect::SendEmbed { channel: self.ch, message: OutgoingMessage { embed, reply_to: None } },
                ),
            },
            PostSession::Editing => match r {
                Reply::Failed => (PostSession::Finished, report("db ded ", Cause::LastReply)),
                _ => (PostSession::Finished, Effect::Nothing),
            },
            PostSession::Sending { post_id } => match r {
                Reply::Sent(id) => (
                    PostSession::CheckingChannel { post_id, message_id: id },
                    Effect::FetchChannel { channel: self.ch },
                ),
                _ => (PostSession::Finished, report("db ded ", Cause::LastReply)),
            },
            PostSession::CheckingChannel { post_id, message_id } => match r {
                Reply::GuildChannel { news } => if news {
                    (PostSession::Crossposting { post_id, message_id }, Effect::Crosspost { channel: self.ch, message_id })
                } else {
                    (PostSession::Finished, Effect::SavePost { post_id, message_id: message_id as i64 })
                },
                Reply::NotGuild => (PostSession::Finished, report_own("db ded ", "Guild Missing")),
                _ => (PostSession::Finished, report("db ded ", Cause::LastReply)),
            },
            PostSession::Crossposting { post_id, message_id } => match r {
                Reply::Failed => (PostSession::Finished, report("db ded ", Cause::LastReply)),
                _ => (PostSession::Finished, Effect::SavePost { post_id, message_id: message_id as i64 }),
            },
            PostSession::EditConnecting { embed, post_id } => match r {
                Reply::Failed => (PostSession::Finished, report("Error editing post", Cause::Nothing)),
                _ => (PostSession::EditFinding { embed }, Effect::FindPostMessage { post_id }),
            },
            PostSession::EditFinding { embed } => match r {
                Reply::Found(m) => (
                    PostSession::Finished,
                    Effect::EditEmbed { channel: self.ch, message_id: m as u64, embed },
                ),
                _ => (PostSession::Finished, Effect::Nothing),
            },
            PostSession::DeleteConnecting { post_id } => match r {
                Reply::Failed => (PostSession::Finished, report("Post deletion failed", Cause::Nothing)),
                _ => (PostSession::DeleteFinding { post_id }, Effect::FindPostMessage { post_id }),
            },
            PostSession::DeleteFinding { post_id } => match r {
                Reply::Found(m) => (
                    PostSession::DeleteRemovingMessage { post_id },
                    Effect::DeleteMessage { channel: self.ch, message_id: m as u64 },
                ),
                _ => (PostSession::DeleteFindingComments { post_id }, Effect::FindCommentMessagesOfPost { post_id }),
            },
            PostSession::DeleteRemovingMessage { post_id } => (
                PostSession::DeleteRemovingRecord { post_id },
                Effect::RemovePost { post_id },
            ),
            PostSession::DeleteRemovingRecord { post_id } => (
                PostSession::DeleteFindingComments { post_id },
                Effect::FindCommentMessagesOfPost { post_id },
            ),
            PostSession::DeleteFindingComments { post_id } => match r {
                Reply::FoundAll(v) => self.sweep_step(post_id, v, 0),
                _ => (PostSession::Finished, Effect::RemoveCommentsOfPost { post_id }),
            },
            PostSession::DeleteRemovingComments { post_id, messages, next } => self.sweep_step(post_id, messages, next),
        }
    }
}

impl HandlerTrait for ImageHandler {
    type Session = PostSession;

    /// A post was made: edit its announcement when one is recorded, else
    /// announce it, crosspost the announcement from an announcement channel,
    /// and record it.
    fn create(&self, fields: Fields) -> (r: (PostSession, Effect))
        ensures
            self.opened(ShimmieSectionTypes::Create, fields, r.0, r.1),
    {
        let embed = self.embed_fields(&fields);
        (PostSession::Connecting { embed, post_id: number_or_zero(fields.post_id) }, Effect::Connect)
    }

    /// A post was edited: replace the embed of its announcement.
    fn edit(&self, fields: Fields) -> (r: (PostSession, Effect))
        ensures
            self.opened(ShimmieSectionTypes::Edit, fields, r.0, r.1),
    {
        let embed = self.embed_fields(&fields);
        (PostSession::EditConnecting { embed, post_id: number_or_zero(fields.post_id) }, Effect::Connect)
    }

    /// A post was deleted: delete its announcement and record, then the
    /// announcements and records of its comments.
    fn delete(&self, fields: Fields) -> (r: (PostSession, Effect))
        ensures
            self.opened(ShimmieSectionTypes::Delete, fields, r.0, r.1),
    {
        (PostSession::DeleteConnecting { post_id: number_or_zero(fields.post_id) }, Effect::Connect)
    }
}

} // verus!
