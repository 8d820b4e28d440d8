//! The messages the board sends: which part of the board changed, how, and
//! the fields that describe the change.

use vstd::prelude::*;
use crate::effects::{Effect, Reply};
use crate::handlers::comment::{CommentHandler, CommentSession};
use crate::handlers::image::{ImageHandler, PostSession};
use crate::handlers::logging::LoggingHandler;
use crate::handlers::user::{UserHandler, UserSession};
use crate::media::MimeType;

verus! {

/// The part of the board an event is about.
#[derive(Debug, Clone, Copy, PartialEq, Eq, Structural)]
pub enum ShimmieSections {
    Comment,
    Post,
    User,
    Log,
}

/// What happened to it.
#[derive(Debug, Clone, Copy, PartialEq, Eq, Structural)]
pub enum ShimmieSectionTypes {
    Create,
    Edit,
    Delete,
}

/// The fields of an event; each may be missing.
#[derive(Debug, Clone)]
pub struct Fields {
    pub post_id: Option<i32>,
    pub username: Option<String>,
    pub hash: Option<String>,
    pub mime: Option<MimeType>,
    pub size: Option<i32>,
    pub comment_id: Option<i32>,
    pub message: Option<String>,
}

impl Default for Fields {
    fn default() -> (f: Fields)
        ensures
            f.post_id is None,
            f.username is None,
            f.hash is None,
            f.mime is None,
            f.size is None,
            f.comment_id is None,
            f.message is None,
    {
        Fields {
            post_id: None,
            username: None,
            hash: None,
            mime: None,
            size: None,
            comment_id: None,
            message: None,
        }
    }
}

/// One event as the board sends it.
#[derive(Debug)]
pub struct ShimmieJson {
    pub section: ShimmieSections,
    pub type_: ShimmieSectionTypes,
    pub fields: Fields,
}

/// How a handler takes up an event: each kind of event starts a session of
/// the handler and yields its first request.
pub trait HandlerTrait {
    type Session;

    fn create(&self, fields: Fields) -> (Self::Session, Effect);

    fn edit(&self, fields: Fields) -> (Self::Session, Effect);

    fn delete(&self, fields: Fields) -> (Self::Session, Effect);
}

/// The handler of one part of the board.
pub enum HandlerEnum {
    Comment(CommentHandler),
    Post(ImageHandler),
    User(UserHandler),
    Log(LoggingHandler),
}

/// Where an event stands, whichever handler took it up.
#[derive(Debug)]
pub enum Session {
    Comment(CommentSession),
    Post(PostSession),
    User(UserSession),
    /// Nothing is left to do.
    Finished,
}

impl Session {
    pub open spec fn finished(self) -> bool {
        match self {
            Session::Comment(s) => s is Finished,
            Session::Post(s) => s is Finished,
            Session::User(s) => s is Finished,
            Session::Finished => true,
        }
    }

    /// The session is done: the request that came with it is the last one.
    pub fn is_finished(&self) -> (b: bool)
        ensures
            b == self.finished(),
    {
        match self {
            Session::Comment(s) => s.is_finished(),
            Session::Post(s) => s.is_finished(),
            Session::User(s) => s.is_finished(),
            Session::Finished => true,
        }
    }

    /// `self` is strictly closer to its end than `other`.
    pub open spec fn closer_than(self, other: Session) -> bool {
        match (self, other) {
            (Session::Comment(a), Session::Comment(b)) => a.rank() < b.rank(),
            (Session::Post(a), Session::Post(b)) => a.closer_than(b),
            (Session::User(a), Session::User(b)) => a is Finished && !(b is Finished),
            (Session::Finished, _) => !other.finished(),
            _ => false,
        }
    }
}

impl HandlerEnum {
    /// What starting on an event of kind `kind` with `fields` gives.
    pub open spec fn opened(&self, kind: ShimmieSectionTypes, fields: Fields, s: Session, e: Effect) -> bool {
        match *self {
            HandlerEnum::Comment(h) => s matches Session::Comment(cs) && h.opened(kind, fields, cs, e),
            HandlerEnum::Post(h) => s matches Session::Post(ps) && h.opened(kind, fields, ps, e),
            HandlerEnum::User(h) => s matches Session::User(us) && h.opened(kind, fields, us, e),
            HandlerEnum::Log(_) => s is Finished && e is Nothing,
        }
    }

    /// The replies session `s` can go on with.
    pub open spec fn accepts(&self, s: Session, r: Reply) -> bool {
        match (*self, s) {
            (HandlerEnum::Comment(_), Session::Comment(cs)) => CommentHandler::accepts(cs, r),
            (HandlerEnum::Post(_), Session::Post(ps)) => ImageHandler::accepts(ps, r),
            _ => true,
        }
    }

    /// The step from session `s` on reply `r` to session `s2` with request `e`;
    /// a session of another handler is finished at once.
    pub open spec fn next(&self, s: Session, r: Reply, s2: Session, e: Effect) -> bool {
        match (*self, s) {
            (HandlerEnum::Comment(h), Session::Comment(cs)) => s2 matches Session::Comment(cs2) && h.next(cs, r, cs2, e),
            (HandlerEnum::Post(h), Session::Post(ps)) => s2 matches Session::Post(ps2) && h.next(ps, r, ps2, e),
            (HandlerEnum::User(h), Session::User(us)) => s2 matches Session::User(us2) && h.next(us, r, us2, e),
            _ => s2 is Finished && e is Nothing,
        }
    }

    /// Starts on an event of kind `kind`.
    pub fn start(&self, kind: ShimmieSectionTypes, fields: Fields) -> (r: (Session, Effect))
        ensures
            self.opened(kind, fields, r.0, r.1),
    {
        match kind {
            ShimmieSectionTypes::Create => self.create(fields),
            ShimmieSectionTypes::Edit => self.edit(fields),
            ShimmieSectionTypes::Delete => self.delete(fields),
        }
    }

    /// Whether `s` can go on with `r`.
    pub fn acceptable(&self, s: &Session, r: &Reply) -> (b: bool)
        ensures
            b == self.accepts(*s, *r),
    {
        match (self, s) {
            (HandlerEnum::Comment(_), Session::Comment(cs)) => match (cs, r) {
                (CommentSession::FindingPost { .. }, Reply::Found(m)) => *m > 0,
                (CommentSession::EditFinding { .. }, Reply::Found(m)) => *m > 0,
                (CommentSession::DeleteFinding { .. }, Reply::Found(m)) => *m > 0,
                _ => true,
            },
            (HandlerEnum::Post(_), Session::Post(ps)) => match (ps, r) {
                (PostSession::Finding { .. }, Reply::Found(m)) => *m != 0,
                (PostSession::EditFinding { .. }, Reply::Found(m)) => *m > 0,
                (PostSession::DeleteFinding { .. }, Reply::Found(m)) => *m > 0,
                (PostSession::DeleteFindingComments { .. }, Reply::FoundAll(v)) => v.len() == 0 || v[0] > 0,
                (PostSession::DeleteRemovingComments { messages, next, .. }, _) => *next >= messages.len()
                    || messages[*next] > 0,
                _ => true,
            },
            _ => true,
        }
    }

    /// Goes on with session `s` after reply `r` to its last request.
    pub fn resume(&self, s: Session, r: Reply) -> (res: (Session, Effect))
        requires
            self.accepts(s, r),
        ensures
            self.next(s, r, res.0, res.1),
            s.finished() || res.0.closer_than(s),
    {
        match (self, s) {
            (HandlerEnum::Comment(h), Session::Comment(cs)) => {
                let (cs2, e) = h.resume(cs, r);
                (Session::Comment(cs2), e)
            },
            (HandlerEnum::Post(h), Session::Post(ps)) => {
                let (ps2, e) = h.resume(ps, r);
                (Session::Post(ps2), e)
            },
            (HandlerEnum::User(h), Session::User(us)) => {
                let (us2, e) = h.resume(us, r);
                (Session::User(us2), e)
            },
            _ => (Session::Finished, Effect::Nothing),
        }
    }
}

impl HandlerTrait for HandlerEnum {
    type Session = Session;

    fn create(&self, fields: Fields) -> (r: (Session, Effect))
        ensures
            self.opened(ShimmieSectionTypes::Create, fields, r.0, r.1),
    {
        match self {
            HandlerEnum::Comment(h) => {
                let (s, e) = h.create(fields);
                (Session::Comment(s), e)
            },
            HandlerEnum::Post(h) => {
                let (s, e) = h.create(fields);
                (Session::Post(s), e)
            },
            HandlerEnum::User(h) => {
                let (s, e) = h.create(fields);
                (Session::User(s), e)
            },
            HandlerEnum::Log(h) => {
                let (_, e) = h.create(fields);
                (Session::Finished, e)
            },
        }
    }

    fn edit(&self, fields: Fields) -> (r: (Session, Effect))
        ensures
            self.opened(ShimmieSectionTypes::Edit, fields, r.0, r.1),
    {
        match self {
            HandlerEnum::Comment(h) => {
                let (s, e) = h.edit(fields);
                (Session::Comment(s), e)
            },
            HandlerEnum::Post(h) => {
                let (s, e) = h.edit(fields);
                (Session::Post(s), e)
            },
            HandlerEnum::User(h) => {
                let (s, e) = h.edit(fields);
                (Session::User(s), e)
            },
            HandlerEnum::Log(h) => {
                let (_, e) = h.edit(fields);
                (Session::Finished, e)
            },
        }
    }

    fn delete(&self, fields: Fields) -> (r: (Session, Effect))
        ensures
            self.opened(ShimmieSectionTypes::Delete, fields, r.0, r.1),
    {
        match self {
            HandlerEnum::Comment(h) => {
                let (s, e) = h.delete(fields);
                (Session::Comment(s), e)
            },
            HandlerEnum::Post(h) => {
                let (s, e) = h.delete(fields);
                (Session::Post(s), e)
            },
            HandlerEnum::User(h) => {
                let (s, e) = h.delete(fields);
                (Session::User(s), e)
            },
            HandlerEnum::Log(h) => {
                let (_, e) = h.delete(fields);
                (Session::Finished, e)
            },
        }
    }
}

/// An optional number, zero when missing.
pub open spec fn num_or_zero(o: Option<i32>) -> i32 {
    match o {
        Some(n) => n,
        None => 0,
    }
}

/// The text of an optional string, empty when missing.
pub open spec fn text_or_empty(o: Option<String>) -> Seq<char> {
    match o {
        Some(s) => s@,
        None => Seq::empty(),
    }
}

/// `o.unwrap_or_default()` for numbers.
pub fn number_or_zero(o: Option<i32>) -> (n: i32)
    ensures
        n == num_or_zero(o),
{
    match o {
        Some(n) => n,
        None => 0,
    }
}

/// `o.unwrap_or_default()` for strings.
pub fn string_or_empty(o: Option<String>) -> (s: String)
    ensures
        s@ == text_or_empty(o),
{
    match o {
        Some(s) => s,
        None => String::new(),
    }
}

} // verus!
