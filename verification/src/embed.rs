//! The Discord embeds the bot posts for board events.

use vstd::prelude::*;
use vstd::string::*;
use crate::media::{MimeType, MimeView, picture_extension, picture_folder, picture_location};
use crate::text::{push_signed, signed_decimal};

verus! {

/// The accent colour of every embed (dark orange).
pub const EMBED_COLOR: u32 = 0xff8c00;

/// A named field of an embed.
#[derive(Debug)]
pub struct EmbedField {
    pub name: String,
    pub value: String,
    pub inline: bool,
}

/// The content of an embed; the time stamp is added when it is sent.
#[derive(Debug)]
pub struct Embed {
    pub color: u32,
    pub title: String,
    pub url: String,
    pub fields: Vec<EmbedField>,
    pub image: Option<String>,
    pub description: Option<String>,
}

/// A message to post: one embed, possibly as a reply to an earlier message
/// of the same channel.
#[derive(Debug)]
pub struct OutgoingMessage {
    pub embed: Embed,
    pub reply_to: Option<u64>,
}

/// An embed as plain values.
pub struct EmbedView {
    pub color: u32,
    pub title: Seq<char>,
    pub url: Seq<char>,
    /// name, value, inline
    pub fields: Seq<(Seq<char>, Seq<char>, bool)>,
    pub image: Option<Seq<char>>,
    pub description: Option<Seq<char>>,
}

pub open spec fn opt_string_view(o: Option<String>) -> Option<Seq<char>> {
    match o {
        Some(s) => Some(s@),
        None => None,
    }
}

impl View for Embed {
    type V = EmbedView;

    open spec fn view(&self) -> EmbedView {
        EmbedView {
            color: self.color,
            title: self.title@,
            url: self.url@,
            fields: self.fields@.map_values(|f: EmbedField| (f.name@, f.value@, f.inline)),
            image: opt_string_view(self.image),
            description: opt_string_view(self.description),
        }
    }
}

/// The embed announcing comment `comment_id` by `username` on post `post_id`.
pub open spec fn comment_card_view(
    server_url: Seq<char>,
    post_id: int,
    username: Seq<char>,
    comment_id: int,
    comment: Seq<char>,
) -> EmbedView {
    EmbedView {
        color: EMBED_COLOR,
        title: "New comment on post >>"@ + signed_decimal(post_id),
        url: server_url + "/post/view/"@ + signed_decimal(post_id) + "#"@ + signed_decimal(comment_id),
        fields: seq![(username, comment, true)],
        image: None,
        description: None,
    }
}

/// The embed announcing post `post_id` by `username`, whose file has the
/// given hash, media type and size.
pub open spec fn post_card_view(
    server_url: Seq<char>,
    post_id: int,
    username: Seq<char>,
    hash: Seq<char>,
    mime: MimeView,
    size: int,
) -> EmbedView {
    EmbedView {
        color: EMBED_COLOR,
        title: "New post! >>"@ + signed_decimal(post_id),
        url: server_url + "/post/view/"@ + signed_decimal(post_id),
        fields: seq![],
        image: Some(
            server_url + "/"@ + picture_folder(mime, size) + "/"@ + hash + "/"@ + signed_decimal(
                post_id,
            ) + "."@ + picture_extension(mime),
        ),
        description: Some("By ["@ + username + "]("@ + server_url + "/user/"@ + username + ")"@),
    }
}

/// The embed announcing the new user `username`.
pub open spec fn user_card_view(server_url: Seq<char>, username: Seq<char>) -> EmbedView {
    EmbedView {
        color: EMBED_COLOR,
        title: "New user: \""@ + username + "\"!"@,
        url: server_url + "/user/"@ + username,
        fields: seq![],
        image: None,
        description: None,
    }
}

/// The board's address the free embed builders use when none is configured.
pub open spec fn default_server_url() -> Seq<char> {
    "https://example.com"@
}

pub(crate) fn comment_card(
    server_url: &str,
    post_id: i64,
    username: String,
    comment_id: i64,
    comment: String,
) -> (e: Embed)
    ensures
        e@ == comment_card_view(server_url@, post_id as int, username@, comment_id as int, comment@),
{
    let mut title = String::from_str("New comment on post >>");
    push_signed(&mut title, post_id);
    let mut url = String::from_str(server_url);
    url.append("/post/view/");
    push_signed(&mut url, post_id);
    url.append("#");
    push_signed(&mut url, comment_id);
    let mut fields: Vec<EmbedField> = Vec::new();
    fields.push(EmbedField { name: username, value: comment, inline: true });
    let e = Embed { color: EMBED_COLOR, title, url, fields, image: None, description: None };
    assert(e@.fields =~= comment_card_view(server_url@, post_id as int, username@, comment_id as int, comment@).fields);
    assert(e@.url =~= comment_card_view(server_url@, post_id as int, username@, comment_id as int, comment@).url);
    e
}

pub(crate) fn post_card(
    server_url: &str,
    post_id: i64,
    username: String,
    hash: String,
    mime: &MimeType,
    size: i64,
) -> (e: Embed)
    ensures
        e@ == post_card_view(server_url@, post_id as int, username@, hash@, mime@, size as int),
{
    let (path, fext) = picture_location(mime, size);
    let mut title = String::from_str("New post! >>");
    push_signed(&mut title, post_id);
    let mut url = String::from_str(server_url);
    url.append("/post/view/");
    push_signed(&mut url, post_id);
    let mut image = String::from_str(server_url);
    image.append("/");
    image.append(path);
    image.append("/");
    image.append(hash.as_str());
    image.append("/");
    push_signed(&mut image, post_id);
    image.append(".");
    image.append(fext);
    let mut description = String::from_str("By [");
    description.append(username.as_str());
    description.append("](");
    description.append(server_url);
    description.append("/user/");
    description.append(username.as_str());
    description.append(")");
    let ghost expected = post_card_view(server_url@, post_id as int, username@, hash@, mime@, size as int);
    let e = Embed {
        color: EMBED_COLOR,
        title,
        url,
        fields: Vec::new(),
        image: Some(image),
        description: Some(description),
    };
    assert(e@.url =~= expected.url);
    assert(e@.fields =~= expected.fields);
    assert(e@.image.unwrap() =~= expected.image.unwrap());
    assert(e@.description.unwrap() =~= expected.description.unwrap());
    e
}

pub(crate) fn user_card(server_url: &str, username: String) -> (e: Embed)
    ensures
        e@ == user_card_view(server_url@, username@),
{
    let mut title = String::from_str("New user: \"");
    title.append(username.as_str());
    title.append("\"!");
    let mut url = String::from_str(server_url);
    url.append("/user/");
    url.append(username.as_str());
    let e = Embed { color: EMBED_COLOR, title, url, fields: Vec::new(), image: None, description: None };
    assert(e@.title =~= user_card_view(server_url@, username@).title);
    assert(e@.fields =~= user_card_view(server_url@, username@).fields);
    e
}

/// The board's address from the `serverUrl` setting, or the default address
/// when the setting is missing.
pub fn server_url_or_default(setting: Option<String>) -> (url: String)
    ensures
        url@ == match setting {
            Some(s) => s@,
            None => default_server_url(),
        },
{
    match setting {
        Some(a) => a,
        None => String::from_str("https://example.com"),
    }
}

/// The message announcing a comment, for the board at `server_url`.
pub fn comment_embed(
    post_id: i64,
    username: String,
    comment_id: i64,
    comment: String,
    server_url: String,
) -> (m: OutgoingMessage)
    ensures
        m.embed@ == comment_card_view(server_url@, post_id as int, username@, comment_id as int, comment@),
        m.reply_to is None,
{
    OutgoingMessage {
        embed: comment_card(server_url.as_str(), post_id, username, comment_id, comment),
        reply_to: None,
    }
}

/// The message announcing a post, for the board at `server_url`.
pub fn image_embed(
    post_id: i64,
    username: String,
    hash: String,
    post_mime: MimeType,
    size: i64,
    server_url: String,
) -> (m: OutgoingMessage)
    ensures
        m.embed@ == post_card_view(server_url@, post_id as int, username@, hash@, post_mime@, size as int),
        m.reply_to is None,
{
    OutgoingMessage {
        embed: post_card(server_url.as_str(), post_id, username, hash, &post_mime, size),
        reply_to: None,
    }
}

} // verus!
