use shimmie_bot::media::{get_supported_extension, picture_location, MimeType, FULL_PICTURE_LIMIT};

fn mime(t: &str, s: &str) -> MimeType {
    MimeType { type_: t.to_string(), subtype: s.to_string() }
}

#[test]
fn supported_extension_is_first_known_supported_one() {
    assert_eq!(get_supported_extension(&mime("image", "png")), Some("png"));
    // image/jpeg is registered as jfif, jpe, jpeg, jpg: jpeg is the first supported one
    assert_eq!(get_supported_extension(&mime("image", "jpeg")), Some("jpeg"));
    assert_eq!(get_supported_extension(&mime("image", "gif")), Some("gif"));
    assert_eq!(get_supported_extension(&mime("image", "webp")), Some("webp"));
    assert_eq!(get_supported_extension(&mime("video", "mp4")), Some("mp4"));
    assert_eq!(get_supported_extension(&mime("video", "quicktime")), Some("mov"));
    assert_eq!(get_supported_extension(&mime("video", "webm")), Some("webm"));
}

#[test]
fn supported_extension_missing_for_unsupported_or_unknown_types() {
    assert_eq!(get_supported_extension(&mime("text", "plain")), None);
    assert_eq!(get_supported_extension(&mime("image", "svg")), None);
    assert_eq!(get_supported_extension(&mime("nonsense", "thing")), None);
}

#[test]
fn videos_are_shown_by_jpeg_thumbnail() {
    assert_eq!(picture_location(&mime("video", "mp4"), 10), ("thumbs", "jpg"));
    assert_eq!(picture_location(&mime("video", "webm"), FULL_PICTURE_LIMIT * 3), ("thumbs", "jpg"));
}

#[test]
fn small_pictures_are_shown_in_full() {
    assert_eq!(picture_location(&mime("image", "png"), 0), ("images", "png"));
    assert_eq!(picture_location(&mime("image", "png"), FULL_PICTURE_LIMIT - 1), ("images", "png"));
    assert_eq!(picture_location(&mime("image", "jpeg"), 500), ("images", "jpeg"));
    assert_eq!(picture_location(&mime("application", "pdf"), 500), ("images", "jpg"));
}

#[test]
fn large_pictures_are_shown_by_thumbnail_except_gifs() {
    assert_eq!(picture_location(&mime("image", "png"), FULL_PICTURE_LIMIT), ("thumbs", "png"));
    assert_eq!(picture_location(&mime("image", "gif"), FULL_PICTURE_LIMIT * 2), ("images", "gif"));
}

#[test]
fn jpeg_is_image_jpeg() {
    let m = MimeType::jpeg();
    assert_eq!(m.type_, "image");
    assert_eq!(m.subtype, "jpeg");
}
