//! What the handlers promise over whole conversations with the runtime, not
//! just single steps.

use vstd::prelude::*;
use crate::effects::{Effect, Reply};
use crate::embed::OutgoingMessage;
use crate::handlers::comment::{CommentHandler, CommentSession};
use crate::handlers::image::{ImageHandler, PostSession};
use crate::embed::{EMBED_COLOR, Embed};
use crate::handlers::user::{UserHandler, UserSession};
use crate::media::{FULL_PICTURE_LIMIT, MimeView, picture_extension, picture_folder};
use crate::models::{
    Fields, HandlerEnum, Session, ShimmieJson, ShimmieSectionTypes, ShimmieSections, num_or_zero, text_or_empty,
};
use crate::text::signed_decimal;
use crate::relay::JsonHandler;

verus! {

/// `e` writes to the database.
pub open spec fn writes_database(e: Effect) -> bool {
    ||| e is SavePost
    ||| e is SaveComment
    ||| e is RemovePost
    ||| e is RemoveComment
    ||| e is RemoveCommentsOfPost
}

/// A new comment whose database connection works and whose announcement is
/// posted under id `id` is announced with its embed, as a reply to its post's
/// announcement when that was found, and recorded under its own comment and
/// post ids with the id of that announcement.
pub proof fn law_comment_recorded_with_its_announcement(
    h: CommentHandler,
    fields: crate::models::Fields,
    s0: CommentSession,
    e0: Effect,
    r1: Reply,
    s1: CommentSession,
    e1: Effect,
    r2: Reply,
    s2: CommentSession,
    e2: Effect,
    id: u64,
    s3: CommentSession,
    e3: Effect,
)
    requires
        h.opened(ShimmieSectionTypes::Create, fields, s0, e0),
        !(r1 is Failed),
        h.next(s0, r1, s1, e1),
        h.next(s1, r2, s2, e2),
        h.next(s2, Reply::Sent(id), s3, e3),
    ensures
        e0 == Effect::Connect,
        e1 == (Effect::FindPostMessage { post_id: num_or_zero(fields.post_id) }),
        e2 matches Effect::SendEmbed { channel, message } && channel == h.ch
            && message.embed@ == h.embed_of(fields)
            && message.reply_to == (match r2 {
                Reply::Found(m) => Some(m as u64),
                _ => None,
            }),
        e3 == (Effect::SaveComment {
            comment_id: num_or_zero(fields.comment_id),
            post_id: num_or_zero(fields.post_id),
            message_id: id as i64,
        }),
        s3 is Finished,
{
}

/// A new post whose announcement is already recorded under a valid id `m`
/// gets that announcement edited, not a second one.
pub proof fn law_recorded_post_is_edited_not_reannounced(
    h: ImageHandler,
    fields: crate::models::Fields,
    s0: PostSession,
    e0: Effect,
    r1: Reply,
    s1: PostSession,
    e1: Effect,
    m: i64,
    s2: PostSession,
    e2: Effect,
)
    requires
        h.opened(ShimmieSectionTypes::Create, fields, s0, e0),
        !(r1 is Failed),
        h.next(s0, r1, s1, e1),
        m > 0,
        h.next(s1, Reply::Found(m), s2, e2),
    ensures
        e1 == (Effect::FindPostMessage { post_id: num_or_zero(fields.post_id) }),
        e2 matches Effect::EditEmbed { channel, message_id, embed } && channel == h.ch
            && message_id == m as u64 && embed@ == h.embed_of(fields),
        s2 is Editing,
{
}

/// A new post with no recorded announcement is announced, and the
/// announcement is recorded under the post's id once the channel turns out to
/// be an ordinary guild channel (an announcement channel first crossposts it).
pub proof fn law_new_post_announced_and_recorded(
    h: ImageHandler,
    fields: crate::models::Fields,
    s0: PostSession,
    e0: Effect,
    r1: Reply,
    s1: PostSession,
    e1: Effect,
    s2: PostSession,
    e2: Effect,
    id: u64,
    s3: PostSession,
    e3: Effect,
    news: bool,
    s4: PostSession,
    e4: Effect,
    r5: Reply,
    s5: PostSession,
    e5: Effect,
)
    requires
        h.opened(ShimmieSectionTypes::Create, fields, s0, e0),
        !(r1 is Failed),
        h.next(s0, r1, s1, e1),
        h.next(s1, Reply::Missing, s2, e2),
        h.next(s2, Reply::Sent(id), s3, e3),
        h.next(s3, Reply::GuildChannel { news }, s4, e4),
        news ==> !(r5 is Failed) && h.next(s4, r5, s5, e5),
    ensures
        e2 == (Effect::SendEmbed {
            channel: h.ch,
            message: OutgoingMessage { embed: s1->Finding_embed, reply_to: None },
        }),
        s1->Finding_embed@ == h.embed_of(fields),
        e3 == (Effect::FetchChannel { channel: h.ch }),
        news ==> e4 == (Effect::Crosspost { channel: h.ch, message_id: id }) && e5 == (Effect::SavePost {
            post_id: num_or_zero(fields.post_id),
            message_id: id as i64,
        }),
        !news ==> e4 == (Effect::SavePost { post_id: num_or_zero(fields.post_id), message_id: id as i64 }),
{
}

/// Once the announcements of a deleted post's comments are found, they are
/// deleted one by one in the order found, whatever comes of each deletion,
/// and then the records of the post's comments are forgotten.
pub proof fn law_post_deletion_sweeps_comments(
    h: ImageHandler,
    post_id: i32,
    found: Vec<i64>,
    sessions: Seq<PostSession>,
    replies: Seq<Reply>,
    effects: Seq<Effect>,
)
    requires
        replies.len() == found@.len() + 1,
        sessions.len() == replies.len() + 1,
        effects.len() == replies.len(),
        sessions[0] == (PostSession::DeleteFindingComments { post_id }),
        replies[0] == Reply::FoundAll(found),
        forall|i: int| 0 <= i < replies.len() ==> h.next(sessions[i], replies[i], sessions[i + 1], effects[i]),
    ensures
        forall|i: int| 0 <= i < found@.len() ==> effects[i] == (Effect::DeleteMessage {
            channel: h.ch,
            message_id: found@[i] as u64,
        }),
        effects[found@.len() as int] == (Effect::RemoveCommentsOfPost { post_id }),
        sessions[replies.len() as int] is Finished,
{
    let n = found@.len() as int;
    assert forall|i: int| 0 <= i < n implies sessions[i + 1] == (PostSession::DeleteRemovingComments {
        post_id,
        messages: found,
        next: (i + 1) as usize,
    }) && effects[i] == (Effect::DeleteMessage { channel: h.ch, message_id: found@[i] as u64 }) by {
        lemma_sweep_prefix(h, post_id, found, sessions, replies, effects, i);
    }
    lemma_length_fits(found);
    if n == 0 {
        assert(h.next(sessions[0], replies[0], sessions[1], effects[0]));
        assert(h.sweep(post_id, found, 0, sessions[1], effects[0]));
    } else {
        lemma_sweep_prefix(h, post_id, found, sessions, replies, effects, n - 1);
        assert(h.next(sessions[n], replies[n], sessions[n + 1], effects[n]));
        assert(h.sweep(post_id, found, n as usize, sessions[n + 1], effects[n]));
    }
}

/// The number of elements of a vector fits in a `usize`.
proof fn lemma_length_fits(v: Vec<i64>)
    ensures
        v@.len() <= usize::MAX,
{
    assert(v@.len() == v.len());
}

proof fn lemma_sweep_prefix(
    h: ImageHandler,
    post_id: i32,
    found: Vec<i64>,
    sessions: Seq<PostSession>,
    replies: Seq<Reply>,
    effects: Seq<Effect>,
    i: int,
)
    requires
        replies.len() == found@.len() + 1,
        sessions.len() == replies.len() + 1,
        effects.len() == replies.len(),
        sessions[0] == (PostSession::DeleteFindingComments { post_id }),
        replies[0] == Reply::FoundAll(found),
        forall|k: int| 0 <= k < replies.len() ==> h.next(sessions[k], replies[k], sessions[k + 1], effects[k]),
        0 <= i < found@.len(),
    ensures
        sessions[i + 1] == (PostSession::DeleteRemovingComments { post_id, messages: found, next: (i + 1) as usize }),
        effects[i] == (Effect::DeleteMessage { channel: h.ch, message_id: found@[i] as u64 }),
    decreases i,
{
    assert(h.next(sessions[i], replies[i], sessions[i + 1], effects[i]));
    lemma_length_fits(found);
    if i > 0 {
        lemma_sweep_prefix(h, post_id, found, sessions, replies, effects, i - 1);
        assert(sessions[i] == (PostSession::DeleteRemovingComments { post_id, messages: found, next: i as usize }));
        assert(h.sweep(post_id, found, i as usize, sessions[i + 1], effects[i]));
    } else {
        assert(h.sweep(post_id, found, 0, sessions[1], effects[0]));
    }
}

/// Editing a post or a comment never writes to the database.
pub proof fn law_edits_leave_database_alone(
    comments: CommentHandler,
    posts: ImageHandler,
    cs: CommentSession,
    ps: PostSession,
    r: Reply,
    cs2: CommentSession,
    ce: Effect,
    ps2: PostSession,
    pe: Effect,
)
    requires
        cs is EditConnecting || cs is EditFinding,
        ps is EditConnecting || ps is EditFinding,
        comments.next(cs, r, cs2, ce),
        posts.next(ps, r, ps2, pe),
    ensures
        !writes_database(ce),
        !writes_database(pe),
        cs2 is Finished || cs2 is EditFinding,
        ps2 is Finished || ps2 is EditFinding,
{
}

/// The board's log events are relayed nowhere: they start no session and
/// ask for nothing.
pub proof fn law_log_events_are_ignored(
    j: JsonHandler,
    msg: ShimmieJson,
    h: HandlerEnum,
    s: Session,
    e: Effect,
)
    requires
        msg.section == ShimmieSections::Log,
        h == j.handler_of(msg.section),
        h.opened(msg.type_, msg.fields, s, e),
    ensures
        s.finished(),
        e is Nothing,
{
}

/// `s` is a session of a new post's conversation about post `p` (or its end).
pub open spec fn announcing(s: PostSession, p: i32) -> bool {
    match s {
        PostSession::Connecting { post_id, .. } => post_id == p,
        PostSession::Finding { post_id, .. } => post_id == p,
        PostSession::Sending { post_id } => post_id == p,
        PostSession::CheckingChannel { post_id, .. } => post_id == p,
        PostSession::Crossposting { post_id, .. } => post_id == p,
        PostSession::Editing => true,
        PostSession::Finished => true,
        _ => false,
    }
}

/// One step of a new post's conversation about post `p` stays about `p`, and
/// a record it saves is a record of `p`.
proof fn lemma_announcing_step(h: ImageHandler, s: PostSession, r: Reply, s2: PostSession, e: Effect, p: i32)
    requires
        announcing(s, p),
        h.next(s, r, s2, e),
    ensures
        announcing(s2, p),
        e matches Effect::SavePost { post_id, .. } ==> post_id == p,
{
}

/// Every session of a new post's conversation is about the post the event named.
proof fn lemma_announcing_trace(
    h: ImageHandler,
    fields: Fields,
    sessions: Seq<PostSession>,
    replies: Seq<Reply>,
    effects: Seq<Effect>,
    i: int,
)
    requires
        sessions.len() == replies.len() + 1,
        effects.len() == replies.len() + 1,
        h.opened(ShimmieSectionTypes::Create, fields, sessions[0], effects[0]),
        forall|k: int| 0 <= k < replies.len() ==> h.next(sessions[k], replies[k], sessions[k + 1], effects[k + 1]),
        0 <= i <= replies.len(),
    ensures
        announcing(sessions[i], num_or_zero(fields.post_id)),
    decreases i,
{
    if i > 0 {
        lemma_announcing_trace(h, fields, sessions, replies, effects, i - 1);
        lemma_announcing_step(h, sessions[i - 1], replies[i - 1], sessions[i], effects[i], num_or_zero(fields.post_id));
    }
}

/// A post is never announced twice: when one new-post conversation saves
/// the record "post `p` was announced by message `mid`", the record is of the
/// post that event named; and a later new-post event for the same post,
/// whose lookup finds that record, edits message `mid` and neither sends a
/// new announcement nor saves another record, and then ends.
pub proof fn law_post_never_announced_twice(
    h: ImageHandler,
    fields1: Fields,
    sessions1: Seq<PostSession>,
    replies1: Seq<Reply>,
    effects1: Seq<Effect>,
    k: int,
    p: i32,
    mid: u64,
    fields2: Fields,
    t0: PostSession,
    f0: Effect,
    r1: Reply,
    t1: PostSession,
    f1: Effect,
    t2: PostSession,
    f2: Effect,
    r3: Reply,
    t3: PostSession,
    f3: Effect,
)
    requires
        sessions1.len() == replies1.len() + 1,
        effects1.len() == replies1.len() + 1,
        h.opened(ShimmieSectionTypes::Create, fields1, sessions1[0], effects1[0]),
        forall|i: int| 0 <= i < replies1.len() ==> h.next(sessions1[i], replies1[i], sessions1[i + 1], effects1[i + 1]),
        0 <= k < effects1.len(),
        effects1[k] == (Effect::SavePost { post_id: p, message_id: mid as i64 }),
        0 < mid <= i64::MAX,
        num_or_zero(fields2.post_id) == num_or_zero(fields1.post_id),
        h.opened(ShimmieSectionTypes::Create, fields2, t0, f0),
        !(r1 is Failed),
        h.next(t0, r1, t1, f1),
        h.next(t1, Reply::Found(mid as i64), t2, f2),
        h.next(t2, r3, t3, f3),
    ensures
        p == num_or_zero(fields1.post_id),
        f1 == (Effect::FindPostMessage { post_id: p }),
        f2 matches Effect::EditEmbed { channel, message_id, embed } && channel == h.ch && message_id == mid
            && embed@ == h.embed_of(fields2),
        !(f3 is SendEmbed) && !(f3 is SavePost) && !(f3 is EditEmbed),
        t3 is Finished,
{
    assert(k > 0);
    lemma_announcing_trace(h, fields1, sessions1, replies1, effects1, k - 1);
    lemma_announcing_step(h, sessions1[k - 1], replies1[k - 1], sessions1[k], effects1[k], num_or_zero(fields1.post_id));
    assert((mid as i64) as u64 == mid);
}

/// The embed a comment session was started with (for a new or an edited comment).
pub open spec fn comment_session_embed(s: CommentSession) -> Embed {
    match s {
        CommentSession::Connecting { embed, .. } => embed,
        CommentSession::EditConnecting { embed, .. } => embed,
        _ => arbitrary(),
    }
}

/// The embed a post session was started with (for a new or an edited post).
pub open spec fn post_session_embed(s: PostSession) -> Embed {
    match s {
        PostSession::Connecting { embed, .. } => embed,
        PostSession::EditConnecting { embed, .. } => embed,
        _ => arbitrary(),
    }
}

/// The announcement of a new or edited comment shows the commenter as the
/// name of its one inline field and the comment's text as its value, is
/// titled with the post's number, and links the comment on the board.
pub proof fn law_comment_embed_shows_commenter_and_text(
    h: CommentHandler,
    kind: ShimmieSectionTypes,
    f: Fields,
    s: CommentSession,
    e: Effect,
)
    requires
        kind != ShimmieSectionTypes::Delete,
        h.opened(kind, f, s, e),
    ensures
        kind == ShimmieSectionTypes::Create ==> s is Connecting,
        kind == ShimmieSectionTypes::Edit ==> s is EditConnecting,
        comment_session_embed(s)@.fields == seq![(text_or_empty(f.username), text_or_empty(f.message), true)],
        comment_session_embed(s)@.title == "New comment on post >>"@ + signed_decimal(num_or_zero(f.post_id) as int),
        comment_session_embed(s)@.url == h.server_url@ + "/post/view/"@ + signed_decimal(num_or_zero(f.post_id) as int)
            + "#"@ + signed_decimal(num_or_zero(f.comment_id) as int),
        comment_session_embed(s)@.color == EMBED_COLOR,
        comment_session_embed(s)@.image is None,
        comment_session_embed(s)@.description is None,
{
}

/// The picture link of a new or edited post's announcement: the board's
/// address, the folder chosen for the event's own media type (`image/jpeg`
/// when it names none) and its own size (zero when it names none), the file
/// hash, the post number and the extension chosen for that media type.
pub proof fn law_post_embed_links_event_picture(
    h: ImageHandler,
    kind: ShimmieSectionTypes,
    f: Fields,
    s: PostSession,
    e: Effect,
)
    requires
        kind != ShimmieSectionTypes::Delete,
        h.opened(kind, f, s, e),
    ensures
        kind == ShimmieSectionTypes::Create ==> s is Connecting,
        kind == ShimmieSectionTypes::Edit ==> s is EditConnecting,
        f.mime matches Some(m) ==> post_session_embed(s)@.image == Some(
            h.server_url@ + "/"@ + picture_folder(m@, num_or_zero(f.size) as int) + "/"@ + text_or_empty(f.hash) + "/"@
                + signed_decimal(num_or_zero(f.post_id) as int) + "."@ + picture_extension(m@),
        ),
        f.mime is None ==> post_session_embed(s)@.image == Some(
            h.server_url@ + "/"@ + picture_folder(MimeView { type_: "image"@, subtype: "jpeg"@ }, num_or_zero(f.size) as int)
                + "/"@ + text_or_empty(f.hash) + "/"@ + signed_decimal(num_or_zero(f.post_id) as int) + "."@
                + picture_extension(MimeView { type_: "image"@, subtype: "jpeg"@ }),
        ),
        post_session_embed(s)@.title == "New post! >>"@ + signed_decimal(num_or_zero(f.post_id) as int),
        post_session_embed(s)@.url == h.server_url@ + "/post/view/"@ + signed_decimal(num_or_zero(f.post_id) as int),
        post_session_embed(s)@.description == Some(
            "By ["@ + text_or_empty(f.username) + "]("@ + h.server_url@ + "/user/"@ + text_or_empty(f.username) + ")"@,
        ),
{
}

/// A large picture (of `FULL_PICTURE_LIMIT` bytes or more) that is neither a
/// video nor a GIF is linked by its thumbnail in the announcement of a new or
/// edited post.
pub proof fn law_large_post_picture_links_thumbnail(
    h: ImageHandler,
    kind: ShimmieSectionTypes,
    f: Fields,
    s: PostSession,
    e: Effect,
    m: crate::media::MimeType,
    size: i32,
)
    requires
        kind != ShimmieSectionTypes::Delete,
        h.opened(kind, f, s, e),
        f.mime == Some(m),
        f.size == Some(size),
        size >= FULL_PICTURE_LIMIT,
        m.type_@ != "video"@,
        picture_extension(m@) != "gif"@,
    ensures
        post_session_embed(s)@.image == Some(
            h.server_url@ + "/thumbs/"@ + text_or_empty(f.hash) + "/"@ + signed_decimal(num_or_zero(f.post_id) as int)
                + "."@ + picture_extension(m@),
        ),
{
    law_post_embed_links_event_picture(h, kind, f, s, e);
    assert(("/"@ + "thumbs"@) + "/"@ =~= "/thumbs/"@) by {
        reveal_strlit("/");
        reveal_strlit("thumbs");
        reveal_strlit("/thumbs/");
    }
    assert(h.server_url@ + "/"@ + "thumbs"@ + "/"@ =~= h.server_url@ + "/thumbs/"@);
}

/// An edited post gets exactly the embed a new post with the same fields would get.
pub proof fn law_post_edit_shows_what_creation_shows(
    h: ImageHandler,
    f: Fields,
    s1: PostSession,
    e1: Effect,
    s2: PostSession,
    e2: Effect,
)
    requires
        h.opened(ShimmieSectionTypes::Create, f, s1, e1),
        h.opened(ShimmieSectionTypes::Edit, f, s2, e2),
    ensures
        s2->EditConnecting_embed@ == s1->Connecting_embed@,
{
}

/// Every video, whatever its subtype and size, is shown by its JPEG thumbnail.
pub proof fn law_videos_show_jpeg_thumbnail(m: MimeView, size: int)
    requires
        m.type_ == "video"@,
    ensures
        picture_folder(m, size) == "thumbs"@,
        picture_extension(m) == "jpg"@,
{
}

/// A picture that is not a video is shown in full when it is under the size
/// limit or a GIF, and by its thumbnail otherwise.
pub proof fn law_pictures_shown_in_full_when_small_or_gif(m: MimeView, size: int)
    requires
        m.type_ != "video"@,
    ensures
        size < FULL_PICTURE_LIMIT ==> picture_folder(m, size) == "images"@,
        picture_extension(m) == "gif"@ ==> picture_folder(m, size) == "images"@,
        size >= FULL_PICTURE_LIMIT && picture_extension(m) != "gif"@ ==> picture_folder(m, size) == "thumbs"@,
{
}

/// Deleting a comment whose announcement `m` is found deletes that message
/// and then, whatever came of the deletion, forgets the comment's record.
pub proof fn law_comment_deletion_forgets_record(
    h: CommentHandler,
    f: Fields,
    s0: CommentSession,
    e0: Effect,
    r1: Reply,
    s1: CommentSession,
    e1: Effect,
    m: i64,
    s2: CommentSession,
    e2: Effect,
    r3: Reply,
    s3: CommentSession,
    e3: Effect,
)
    requires
        h.opened(ShimmieSectionTypes::Delete, f, s0, e0),
        !(r1 is Failed),
        h.next(s0, r1, s1, e1),
        h.next(s1, Reply::Found(m), s2, e2),
        h.next(s2, r3, s3, e3),
    ensures
        e0 == Effect::Connect,
        e1 == (Effect::FindCommentMessage { comment_id: num_or_zero(f.comment_id) }),
        e2 == (Effect::DeleteMessage { channel: h.ch, message_id: m as u64 }),
        e3 == (Effect::RemoveComment { comment_id: num_or_zero(f.comment_id) }),
        s3 is Finished,
{
}

/// Deleting a post whose announcement `m` is found deletes that message, then
/// (whatever came of it) forgets the post's record, then looks for the
/// announcements of its comments.
pub proof fn law_post_deletion_forgets_record(
    h: ImageHandler,
    f: Fields,
    s0: PostSession,
    e0: Effect,
    r1: Reply,
    s1: PostSession,
    e1: Effect,
    m: i64,
    s2: PostSession,
    e2: Effect,
    r3: Reply,
    s3: PostSession,
    e3: Effect,
    r4: Reply,
    s4: PostSession,
    e4: Effect,
)
    requires
        h.opened(ShimmieSectionTypes::Delete, f, s0, e0),
        !(r1 is Failed),
        h.next(s0, r1, s1, e1),
        h.next(s1, Reply::Found(m), s2, e2),
        h.next(s2, r3, s3, e3),
        h.next(s3, r4, s4, e4),
    ensures
        e1 == (Effect::FindPostMessage { post_id: num_or_zero(f.post_id) }),
        e2 == (Effect::DeleteMessage { channel: h.ch, message_id: m as u64 }),
        e3 == (Effect::RemovePost { post_id: num_or_zero(f.post_id) }),
        e4 == (Effect::FindCommentMessagesOfPost { post_id: num_or_zero(f.post_id) }),
{
}

/// A new user is announced in the handler's channel with their name in the
/// title and a link to their profile; a deleted user is named in a notice.
pub proof fn law_user_events_name_the_user(
    h: UserHandler,
    f: Fields,
    s1: UserSession,
    e1: Effect,
    s2: UserSession,
    e2: Effect,
)
    requires
        h.opened(ShimmieSectionTypes::Create, f, s1, e1),
        h.opened(ShimmieSectionTypes::Delete, f, s2, e2),
    ensures
        e1 matches Effect::SendEmbed { channel, message } && channel == h.ch && message.reply_to is None
            && message.embed@.title == "New user: \""@ + text_or_empty(f.username) + "\"!"@
            && message.embed@.url == h.server_url@ + "/user/"@ + text_or_empty(f.username),
        e2 matches Effect::Say { channel, text } && channel == h.ch && text@ == "User deleted: "@ + text_or_empty(f.username),
{
}

} // verus!
