use shimmie_bot::effects::{Cause, Effect, Reply};
use shimmie_bot::handlers::comment::{CommentHandler, CommentSession};
use shimmie_bot::handlers::image::{ImageHandler, PostSession};
use shimmie_bot::handlers::logging::LoggingHandler;
use shimmie_bot::handlers::user::{UserHandler, UserSession};
use shimmie_bot::media::MimeType;
use shimmie_bot::models::{Fields, HandlerEnum, HandlerTrait, Session, ShimmieJson, ShimmieSectionTypes, ShimmieSections};
use shimmie_bot::relay::JsonHandler;

const URL: &str = "https://board.example";

fn comment_fields() -> Fields {
    Fields {
        post_id: Some(5),
        username: Some("alice".to_string()),
        comment_id: Some(17),
        message: Some("nice".to_string()),
        ..Fields::default()
    }
}

fn post_fields() -> Fields {
    Fields {
        post_id: Some(42),
        username: Some("bob".to_string()),
        hash: Some("abcd".to_string()),
        mime: Some(MimeType { type_: "image".to_string(), subtype: "png".to_string() }),
        size: Some(1000),
        ..Fields::default()
    }
}

/// Runs a session, handing it the replies in turn; returns every request made.
fn run(h: &HandlerEnum, start: (Session, Effect), replies: Vec<Reply>) -> Vec<Effect> {
    let (mut s, e) = start;
    let mut effects = vec![e];
    for r in replies {
        if s.is_finished() {
            break;
        }
        assert!(h.acceptable(&s, &r));
        let (s2, e2) = h.resume(s, r);
        s = s2;
        effects.push(e2);
    }
    assert!(s.is_finished());
    effects
}

fn is_report(e: &Effect, text: &str) -> bool {
    matches!(e, Effect::Report { text: t, .. } if t == text)
}

#[test]
fn comment_recorded_with_its_announcement() {
    let h = HandlerEnum::Comment(CommentHandler { ch: 100, server_url: URL.to_string() });
    let start = h.create(comment_fields());
    let effects = run(&h, start, vec![Reply::Done, Reply::Found(900), Reply::Sent(901)]);
    assert_eq!(effects.len(), 4);
    assert!(matches!(effects[0], Effect::Connect));
    assert!(matches!(effects[1], Effect::FindPostMessage { post_id: 5 }));
    match &effects[2] {
        Effect::SendEmbed { channel, message } => {
            assert_eq!(*channel, 100);
            assert_eq!(message.reply_to, Some(900));
            assert_eq!(message.embed.url, "https://board.example/post/view/5#17");
        }
        other => panic!("unexpected {:?}", other),
    }
    assert!(matches!(effects[3], Effect::SaveComment { comment_id: 17, post_id: 5, message_id: 901 }));
}

#[test]
fn comment_without_post_announcement_is_not_a_reply() {
    let h = HandlerEnum::Comment(CommentHandler { ch: 100, server_url: URL.to_string() });
    let effects = run(&h, h.create(comment_fields()), vec![Reply::Done, Reply::Missing, Reply::Failed]);
    match &effects[2] {
        Effect::SendEmbed { message, .. } => assert_eq!(message.reply_to, None),
        other => panic!("unexpected {:?}", other),
    }
    assert!(is_report(&effects[3], "Error sending comment: "));
    assert!(matches!(effects[3], Effect::Report { cause: Cause::LastReply, .. }));
}

#[test]
fn comment_without_database() {
    let h = HandlerEnum::Comment(CommentHandler { ch: 100, server_url: URL.to_string() });
    let effects = run(&h, h.create(comment_fields()), vec![Reply::Failed]);
    assert!(is_report(&effects[1], "db ded "));
    let effects = run(&h, h.edit(comment_fields()), vec![Reply::Failed]);
    assert!(is_report(&effects[1], "Comment editing failed"));
    assert!(matches!(effects[1], Effect::Report { cause: Cause::Nothing, .. }));
    let effects = run(&h, h.delete(comment_fields()), vec![Reply::Failed]);
    assert!(is_report(&effects[1], "Comment deleting failed"));
}

#[test]
fn comment_edit_and_delete() {
    let h = HandlerEnum::Comment(CommentHandler { ch: 100, server_url: URL.to_string() });
    let effects = run(&h, h.edit(comment_fields()), vec![Reply::Done, Reply::Found(77)]);
    assert!(matches!(effects[1], Effect::FindCommentMessage { comment_id: 17 }));
    assert!(matches!(effects[2], Effect::EditEmbed { channel: 100, message_id: 77, .. }));
    let effects = run(&h, h.edit(comment_fields()), vec![Reply::Done, Reply::Missing]);
    assert!(matches!(effects[2], Effect::Nothing));

    let effects = run(&h, h.delete(comment_fields()), vec![Reply::Done, Reply::Found(77), Reply::Failed]);
    assert!(matches!(effects[2], Effect::DeleteMessage { channel: 100, message_id: 77 }));
    assert!(matches!(effects[3], Effect::RemoveComment { comment_id: 17 }));
    let effects = run(&h, h.delete(comment_fields()), vec![Reply::Done, Reply::Missing]);
    assert_eq!(effects.len(), 3);
    assert!(matches!(effects[2], Effect::Nothing));
}

#[test]
fn invalid_stored_message_ids_are_not_accepted() {
    let h = HandlerEnum::Comment(CommentHandler { ch: 100, server_url: URL.to_string() });
    let (s, _) = h.create(comment_fields());
    let (s, _) = h.resume(s, Reply::Done);
    assert!(!h.acceptable(&s, &Reply::Found(0)));
    assert!(!h.acceptable(&s, &Reply::Found(-4)));
    assert!(h.acceptable(&s, &Reply::Found(4)));

    let p = HandlerEnum::Post(ImageHandler { ch: 100, server_url: URL.to_string() });
    let (s, _) = p.create(post_fields());
    let (s, _) = p.resume(s, Reply::Done);
    assert!(!p.acceptable(&s, &Reply::Found(0)));
    assert!(p.acceptable(&s, &Reply::Found(-4)));
}

#[test]
fn new_post_announced_recorded_and_crossposted() {
    let h = HandlerEnum::Post(ImageHandler { ch: 200, server_url: URL.to_string() });
    let effects = run(
        &h,
        h.create(post_fields()),
        vec![Reply::Done, Reply::Missing, Reply::Sent(555), Reply::GuildChannel { news: true }, Reply::Done],
    );
    assert_eq!(effects.len(), 6);
    match &effects[2] {
        Effect::SendEmbed { channel: 200, message } => {
            assert_eq!(message.reply_to, None);
            assert_eq!(message.embed.image.as_deref(), Some("https://board.example/images/abcd/42.png"));
        }
        other => panic!("unexpected {:?}", other),
    }
    assert!(matches!(effects[3], Effect::FetchChannel { channel: 200 }));
    assert!(matches!(effects[4], Effect::Crosspost { channel: 200, message_id: 555 }));
    assert!(matches!(effects[5], Effect::SavePost { post_id: 42, message_id: 555 }));
}

#[test]
fn new_post_in_plain_channel_is_recorded_without_crosspost() {
    let h = HandlerEnum::Post(ImageHandler { ch: 200, server_url: URL.to_string() });
    let effects = run(
        &h,
        h.create(post_fields()),
        vec![Reply::Done, Reply::Missing, Reply::Sent(555), Reply::GuildChannel { news: false }],
    );
    assert!(matches!(effects[4], Effect::SavePost { post_id: 42, message_id: 555 }));
}

#[test]
fn new_post_outside_a_guild_is_reported() {
    let h = HandlerEnum::Post(ImageHandler { ch: 200, server_url: URL.to_string() });
    let effects = run(&h, h.create(post_fields()), vec![Reply::Done, Reply::Missing, Reply::Sent(555), Reply::NotGuild]);
    match &effects[4] {
        Effect::Report { text, cause: Cause::Own(err) } => {
            assert_eq!(text, "db ded ");
            assert_eq!(err.msg, "Guild Missing");
        }
        other => panic!("unexpected {:?}", other),
    }
}

#[test]
fn recorded_post_is_edited_not_reannounced() {
    let h = HandlerEnum::Post(ImageHandler { ch: 200, server_url: URL.to_string() });
    let effects = run(&h, h.create(post_fields()), vec![Reply::Done, Reply::Found(31), Reply::Done]);
    assert_eq!(effects.len(), 4);
    match &effects[2] {
        Effect::EditEmbed { channel: 200, message_id: 31, embed } => assert_eq!(embed.title, "New post! >>42"),
        other => panic!("unexpected {:?}", other),
    }
    assert!(matches!(effects[3], Effect::Nothing));
    let effects = run(&h, h.create(post_fields()), vec![Reply::Done, Reply::Found(31), Reply::Failed]);
    assert!(is_report(&effects[3], "db ded "));
}

#[test]
fn negative_recorded_post_id_is_reported() {
    let h = HandlerEnum::Post(ImageHandler { ch: 200, server_url: URL.to_string() });
    let effects = run(&h, h.create(post_fields()), vec![Reply::Done, Reply::Found(-31)]);
    assert!(matches!(effects[2], Effect::Report { cause: Cause::Conversion(-31), .. }));
}

#[test]
fn post_edit() {
    let h = HandlerEnum::Post(ImageHandler { ch: 200, server_url: URL.to_string() });
    let effects = run(&h, h.edit(post_fields()), vec![Reply::Done, Reply::Found(31)]);
    assert!(matches!(effects[1], Effect::FindPostMessage { post_id: 42 }));
    assert!(matches!(effects[2], Effect::EditEmbed { channel: 200, message_id: 31, .. }));
    let effects = run(&h, h.edit(post_fields()), vec![Reply::Failed]);
    assert!(is_report(&effects[1], "Error editing post"));
}

#[test]
fn post_deletion_sweeps_comments() {
    let h = HandlerEnum::Post(ImageHandler { ch: 200, server_url: URL.to_string() });
    let effects = run(
        &h,
        h.delete(post_fields()),
        vec![
            Reply::Done,
            Reply::Found(31),
            Reply::Done,
            Reply::Done,
            Reply::FoundAll(vec![7, 8, 9]),
            Reply::Failed,
            Reply::Done,
            Reply::Done,
        ],
    );
    assert_eq!(effects.len(), 9);
    assert!(matches!(effects[1], Effect::FindPostMessage { post_id: 42 }));
    assert!(matches!(effects[2], Effect::DeleteMessage { channel: 200, message_id: 31 }));
    assert!(matches!(effects[3], Effect::RemovePost { post_id: 42 }));
    assert!(matches!(effects[4], Effect::FindCommentMessagesOfPost { post_id: 42 }));
    assert!(matches!(effects[5], Effect::DeleteMessage { message_id: 7, .. }));
    assert!(matches!(effects[6], Effect::DeleteMessage { message_id: 8, .. }));
    assert!(matches!(effects[7], Effect::DeleteMessage { message_id: 9, .. }));
    assert!(matches!(effects[8], Effect::RemoveCommentsOfPost { post_id: 42 }));
}

#[test]
fn post_deletion_without_records() {
    let h = HandlerEnum::Post(ImageHandler { ch: 200, server_url: URL.to_string() });
    let effects = run(&h, h.delete(post_fields()), vec![Reply::Done, Reply::Missing, Reply::Missing]);
    assert!(matches!(effects[2], Effect::FindCommentMessagesOfPost { post_id: 42 }));
    assert!(matches!(effects[3], Effect::RemoveCommentsOfPost { post_id: 42 }));
    let effects = run(&h, h.delete(post_fields()), vec![Reply::Failed]);
    assert!(is_report(&effects[1], "Post deletion failed"));
}

#[test]
fn invalid_comment_message_in_sweep_is_not_accepted() {
    let h = HandlerEnum::Post(ImageHandler { ch: 200, server_url: URL.to_string() });
    let s = Session::Post(PostSession::DeleteFindingComments { post_id: 1 });
    assert!(!h.acceptable(&s, &Reply::FoundAll(vec![0, 5])));
    assert!(h.acceptable(&s, &Reply::FoundAll(vec![5, 0])));
    let s = Session::Post(PostSession::DeleteRemovingComments { post_id: 1, messages: vec![5, 0], next: 1 });
    assert!(!h.acceptable(&s, &Reply::Done));
    let s = Session::Post(PostSession::DeleteRemovingComments { post_id: 1, messages: vec![5, 0], next: 2 });
    assert!(h.acceptable(&s, &Reply::Done));
}

#[test]
fn user_events() {
    let h = HandlerEnum::User(UserHandler { ch: 300, server_url: URL.to_string() });
    let fields = Fields { username: Some("eve".to_string()), ..Fields::default() };
    let effects = run(&h, h.create(fields), vec![Reply::Sent(1)]);
    match &effects[0] {
        Effect::SendEmbed { channel: 300, message } => assert_eq!(message.embed.title, "New user: \"eve\"!"),
        other => panic!("unexpected {:?}", other),
    }
    assert!(matches!(effects[1], Effect::Nothing));
    let fields = Fields { username: Some("eve".to_string()), ..Fields::default() };
    let effects = run(&h, h.delete(fields), vec![Reply::Failed]);
    match &effects[0] {
        Effect::Say { channel: 300, text } => assert_eq!(text, "User deleted: eve"),
        other => panic!("unexpected {:?}", other),
    }
    assert!(is_report(&effects[1], "Error sending user deletion: "));
    let effects = run(&h, h.edit(Fields::default()), vec![]);
    assert!(matches!(effects[0], Effect::Nothing));
    let users = UserHandler { ch: 300, server_url: URL.to_string() };
    let (s, _) = users.create(Fields::default());
    let (s, e) = users.resume(s, Reply::Failed);
    assert!(matches!(s, UserSession::Finished));
    assert!(is_report(&e, "Error sending user creation: "));
}

#[test]
fn log_events_are_ignored() {
    let j = JsonHandler { ch: 1, lch: 2, server_url: URL.to_string() };
    for kind in [ShimmieSectionTypes::Create, ShimmieSectionTypes::Edit, ShimmieSectionTypes::Delete] {
        let (h, s, e) = j.on_receive(ShimmieJson { section: ShimmieSections::Log, type_: kind, fields: comment_fields() });
        assert!(matches!(h, HandlerEnum::Log(_)));
        assert!(s.is_finished());
        assert!(matches!(e, Effect::Nothing));
    }
    let l = LoggingHandler {};
    assert!(matches!(l.create(Fields::default()).1, Effect::Nothing));
}

#[test]
fn events_are_routed_by_section() {
    let j = JsonHandler { ch: 1, lch: 2, server_url: URL.to_string() };
    let (h, s, e) = j.on_receive(ShimmieJson { section: ShimmieSections::User, type_: ShimmieSectionTypes::Create, fields: Fields::default() });
    assert!(matches!(h, HandlerEnum::User(UserHandler { ch: 2, .. })));
    assert!(matches!(s, Session::User(UserSession::Sending)));
    assert!(matches!(e, Effect::SendEmbed { channel: 2, .. }));
    let (h, s, e) = j.on_receive(ShimmieJson { section: ShimmieSections::Comment, type_: ShimmieSectionTypes::Delete, fields: comment_fields() });
    assert!(matches!(h, HandlerEnum::Comment(CommentHandler { ch: 1, .. })));
    assert!(matches!(s, Session::Comment(CommentSession::DeleteConnecting { comment_id: 17 })));
    assert!(matches!(e, Effect::Connect));
    let (h, s, _) = j.on_receive(ShimmieJson { section: ShimmieSections::Post, type_: ShimmieSectionTypes::Edit, fields: post_fields() });
    assert!(matches!(h, HandlerEnum::Post(ImageHandler { ch: 1, .. })));
    assert!(matches!(s, Session::Post(PostSession::EditConnecting { post_id: 42, .. })));
}

#[test]
fn missing_fields_read_as_zero_and_empty() {
    let j = JsonHandler { ch: 1, lch: 2, server_url: URL.to_string() };
    let (_, s, _) = j.on_receive(ShimmieJson { section: ShimmieSections::Comment, type_: ShimmieSectionTypes::Create, fields: Fields::default() });
    match s {
        Session::Comment(CommentSession::Connecting { embed, post_id: 0, comment_id: 0 }) => {
            assert_eq!(embed.title, "New comment on post >>0");
            assert_eq!(embed.fields[0].name, "");
            assert_eq!(embed.fields[0].value, "");
        }
        other => panic!("unexpected {:?}", other),
    }
}

#[test]
fn post_is_never_announced_twice() {
    let h = HandlerEnum::Post(ImageHandler { ch: 200, server_url: URL.to_string() });
    let first = run(
        &h,
        h.create(post_fields()),
        vec![Reply::Done, Reply::Missing, Reply::Sent(555), Reply::GuildChannel { news: false }],
    );
    let saved = match first.last() {
        Some(Effect::SavePost { post_id: 42, message_id }) => *message_id,
        other => panic!("unexpected {:?}", other),
    };
    let second = run(&h, h.create(post_fields()), vec![Reply::Done, Reply::Found(saved), Reply::Done]);
    assert!(matches!(second[2], Effect::EditEmbed { channel: 200, message_id: 555, .. }));
    assert!(!second.iter().any(|e| matches!(e, Effect::SendEmbed { .. } | Effect::SavePost { .. })));
}
