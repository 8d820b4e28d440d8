use shimmie_bot::embed::{comment_embed, image_embed, server_url_or_default, EMBED_COLOR};
use shimmie_bot::handlers::comment::CommentHandler;
use shimmie_bot::handlers::image::ImageHandler;
use shimmie_bot::handlers::user::UserHandler;
use shimmie_bot::media::MimeType;
use shimmie_bot::models::Fields;

const URL: &str = "https://board.example";

#[test]
fn comment_embed_content() {
    let m = comment_embed(5, "alice".to_string(), 17, "nice fox".to_string(), URL.to_string());
    assert!(m.reply_to.is_none());
    let e = m.embed;
    assert_eq!(e.color, 0xff8c00);
    assert_eq!(e.title, "New comment on post >>5");
    assert_eq!(e.url, "https://board.example/post/view/5#17");
    assert_eq!(e.fields.len(), 1);
    assert_eq!(e.fields[0].name, "alice");
    assert_eq!(e.fields[0].value, "nice fox");
    assert!(e.fields[0].inline);
    assert!(e.image.is_none());
    assert!(e.description.is_none());
}

#[test]
fn comment_embed_negative_ids() {
    let e = comment_embed(-3, String::new(), i64::MIN, String::new(), String::new()).embed;
    assert_eq!(e.title, "New comment on post >>-3");
    assert_eq!(e.url, format!("/post/view/-3#{}", i64::MIN));
}

#[test]
fn image_embed_content() {
    let png = MimeType { type_: "image".to_string(), subtype: "png".to_string() };
    let e = image_embed(42, "bob".to_string(), "abcd".to_string(), png, 1000, URL.to_string()).embed;
    assert_eq!(e.color, EMBED_COLOR);
    assert_eq!(e.title, "New post! >>42");
    assert_eq!(e.url, "https://board.example/post/view/42");
    assert_eq!(e.image.as_deref(), Some("https://board.example/images/abcd/42.png"));
    assert_eq!(e.description.as_deref(), Some("By [bob](https://board.example/user/bob)"));
    assert!(e.fields.is_empty());
}

#[test]
fn image_embed_of_video_uses_thumbnail() {
    let mp4 = MimeType { type_: "video".to_string(), subtype: "mp4".to_string() };
    let e = image_embed(7, "c".to_string(), "ff".to_string(), mp4, 1, URL.to_string()).embed;
    assert_eq!(e.image.as_deref(), Some("https://board.example/thumbs/ff/7.jpg"));
}

#[test]
fn server_url_default() {
    assert_eq!(server_url_or_default(None), "https://example.com");
    assert_eq!(server_url_or_default(Some(URL.to_string())), URL);
}

#[test]
fn handler_embeds_use_their_server_url() {
    let comments = CommentHandler { ch: 1, server_url: URL.to_string() };
    let e = comments.embed(3, "dee".to_string(), 9, "hi".to_string());
    assert_eq!(e.url, "https://board.example/post/view/3#9");

    let users = UserHandler { ch: 2, server_url: URL.to_string() };
    let e = users.embed("eve".to_string());
    assert_eq!(e.title, "New user: \"eve\"!");
    assert_eq!(e.url, "https://board.example/user/eve");
    assert!(e.image.is_none() && e.description.is_none() && e.fields.is_empty());
}

#[test]
fn post_embed_defaults_missing_fields() {
    let posts = ImageHandler { ch: 1, server_url: URL.to_string() };
    // no media type: image/jpeg, no size: 0, no hash: empty
    let e = posts.embed_fields(&Fields { post_id: Some(12), username: Some("fox".to_string()), ..Fields::default() });
    assert_eq!(e.title, "New post! >>12");
    assert_eq!(e.image.as_deref(), Some("https://board.example/images//12.jpeg"));
    assert_eq!(e.description.as_deref(), Some("By [fox](https://board.example/user/fox)"));
}
