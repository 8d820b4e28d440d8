//! Users: new users are announced, deleted users are named.

use vstd::prelude::*;
use vstd::string::*;
use crate::effects::{Cause, Effect, Reply, report, reports};
use crate::embed::{Embed, OutgoingMessage, user_card, user_card_view};
use crate::models::{Fields, HandlerTrait, ShimmieSectionTypes, string_or_empty, text_or_empty};

verus! {

/// Announces users in channel `ch` (the log channel) of the board at `server_url`.
pub struct UserHandler {
    pub ch: u64,
    pub server_url: String,
}

/// Where a user event stands.
#[derive(Debug)]
pub enum UserSession {
    Finished,
    /// New user: waiting for the announcement to be posted.
    Sending,
    /// Deleted user: waiting for the notice to be posted.
    Saying,
}

impl UserSession {
    pub fn is_finished(&self) -> (b: bool)
        ensures
            b == (*self is Finished),
    {
        match self {
            UserSession::Finished => true,
            _ => false,
        }
    }
}

/// The notice that user `username` was deleted.
pub open spec fn deletion_notice(username: Seq<char>) -> Seq<char> {
    "User deleted: "@ + username
}

impl UserHandler {
    /// The embed announcing the new user `username`.
    pub fn embed(&self, username: String) -> (e: Embed)
        ensures
            e@ == user_card_view(self.server_url@, username@),
    {
        user_card(self.server_url.as_str(), username)
    }

    /// What starting on an event of kind `kind` with `fields` gives: the
    /// first session and request.
    pub open spec fn opened(&self, kind: ShimmieSectionTypes, fields: Fields, s: UserSession, e: Effect) -> bool {
        match kind {
            ShimmieSectionTypes::Create => s is Sending && (e matches Effect::SendEmbed { channel, message }
                && channel == self.ch && message.reply_to is None
                && message.embed@ == user_card_view(self.server_url@, text_or_empty(fields.username))),
            ShimmieSectionTypes::Edit => s is Finished && e is Nothing,
            ShimmieSectionTypes::Delete => s is Saying && (e matches Effect::Say { channel, text }
                && channel == self.ch && text@ == deletion_notice(text_or_empty(fields.username))),
        }
    }

    /// The step from session `s` on reply `r` to session `s2` with request `e`.
    pub open spec fn next(&self, s: UserSession, r: Reply, s2: UserSession, e: Effect) -> bool {
        &&& s2 is Finished
        &&& match s {
            UserSession::Finished => e is Nothing,
            UserSession::Sending => if r is Failed {
                reports(e, "Error sending user creation: "@, Cause::LastReply)
            } else {
                e is Nothing
            },
            UserSession::Saying => if r is Failed {
                reports(e, "Error sending user deletion: "@, Cause::LastReply)
            } else {
                e is Nothing
            },
        }
    }

    /// Goes on with session `s` after reply `r` to its last request.
    pub fn resume(&self, s: UserSession, r: Reply) -> (res: (UserSession, Effect))
        ensures
            self.next(s, r, res.0, res.1),
    {
        match (s, r) {
            (UserSession::Sending, Reply::Failed) => (
                UserSession::Finished,
                report("Error sending user creation: ", Cause::LastReply),
            ),
            (UserSession::Saying, Reply::Failed) => (
                UserSession::Finished,
                report("Error sending user deletion: ", Cause::LastReply),
            ),
            _ => (UserSession::Finished, Effect::Nothing),
        }
    }
}

impl HandlerTrait for UserHandler {
    type Session = UserSession;

    /// A user signed up: announce them.
    fn create(&self, fields: Fields) -> (r: (UserSession, Effect))
        ensures
            self.opened(ShimmieSectionTypes::Create, fields, r.0, r.1),
    {
        let embed = self.embed(string_or_empty(fields.username));
        (UserSession::Sending, Effect::SendEmbed { channel: self.ch, message: OutgoingMessage { embed, reply_to: None } })
    }

    /// A user changed their profile: nothing to do.
    fn edit(&self, _fields: Fields) -> (r: (UserSession, Effect))
        ensures
            self.opened(ShimmieSectionTypes::Edit, _fields, r.0, r.1),
    {
        (UserSession::Finished, Effect::Nothing)
    }

    /// A user was deleted: say so.
    fn delete(&self, fields: Fields) -> (r: (UserSession, Effect))
        ensures
            self.opened(ShimmieSectionTypes::Delete, fields, r.0, r.1),
    {
        let mut text = String::from_str("User deleted: ");
        let name = string_or_empty(fields.username);
        text.append(name.as_str());
        (UserSession::Saying, Effect::Say { channel: self.ch, text })
    }
}

} // verus!
