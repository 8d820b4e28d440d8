//! Media types of posts, and where a post's picture is found on the board.

use vstd::prelude::*;
use crate::text::str_eq;

verus! {

/// A media type as `type/subtype` (parameters and `+suffix` left out),
/// e.g. `image` and `png` for `image/png`.
#[derive(Debug, Clone)]
pub struct MimeType {
    pub type_: String,
    pub subtype: String,
}

/// A media type as plain values.
pub struct MimeView {
    pub type_: Seq<char>,
    pub subtype: Seq<char>,
}

impl View for MimeType {
    type V = MimeView;

    open spec fn view(&self) -> MimeView {
        MimeView { type_: self.type_@, subtype: self.subtype@ }
    }
}

/// `image/jpeg`.
pub open spec fn jpeg_view() -> MimeView {
    MimeView { type_: "image"@, subtype: "jpeg"@ }
}

/// Picture files of this size in bytes or more are shown by their thumbnail.
pub const FULL_PICTURE_LIMIT: i64 = 10485760;

/// What `mime_guess::get_extensions` returns for a top-level type and a subtype:
/// the file extensions registered for that media type, if it is known.
pub uninterp spec fn guessed_extensions(toplevel: Seq<char>, sublevel: Seq<char>) -> Option<Seq<Seq<char>>>;

/// Calls `mime_guess::get_extensions`, which looks the pair up in the crate's
/// static table of media types. The contract only names the result (it is a
/// function of the two names alone); the table's contents are not stated.
#[verifier::external_body]
fn known_extensions(toplevel: &str, sublevel: &str) -> (r: Option<Vec<&'static str>>)
    ensures
        r.deep_view() == guessed_extensions(toplevel@, sublevel@),
{
    mime_guess::get_extensions(toplevel, sublevel).map(<[&'static str]>::to_vec)
}

/// Reads the constant `mime::VIDEO`, the top-level type name `video`.
#[verifier::external_body]
fn video_type_name() -> (s: &'static str)
    ensures
        s@ == "video"@,
{
    mime::VIDEO.as_str()
}

/// Builds the library's form of the constant `mime::IMAGE_JPEG` (`image/jpeg`)
/// from the constant's type and subtype names.
#[verifier::external_body]
fn image_jpeg() -> (m: MimeType)
    ensures
        m.type_@ == "image"@,
        m.subtype@ == "jpeg"@,
{
    MimeType {
        type_: mime::IMAGE_JPEG.type_().as_str().to_string(),
        subtype: mime::IMAGE_JPEG.subtype().as_str().to_string(),
    }
}

impl MimeType {
    /// `image/jpeg`, the media type assumed for a post that names none.
    pub fn jpeg() -> (m: MimeType)
        ensures
            m@ == jpeg_view(),
    {
        image_jpeg()
    }

    /// A copy of this media type.
    pub fn duplicate(&self) -> (m: MimeType)
        ensures
            m@ == self@,
    {
        MimeType { type_: self.type_.clone(), subtype: self.subtype.clone() }
    }
}

/// The file extensions the board serves pictures and videos under.
pub open spec fn is_supported_extension(ext: Seq<char>) -> bool {
    ||| ext == "jpg"@
    ||| ext == "jpeg"@
    ||| ext == "png"@
    ||| ext == "gif"@
    ||| ext == "webp"@
    ||| ext == "mp4"@
    ||| ext == "webm"@
    ||| ext == "mov"@
}

/// The first extension of `exts` that the board supports.
pub open spec fn first_supported(exts: Seq<Seq<char>>) -> Option<Seq<char>>
    decreases exts.len(),
{
    if exts.len() == 0 {
        None
    } else if is_supported_extension(exts[0]) {
        Some(exts[0])
    } else {
        first_supported(exts.drop_first())
    }
}

/// The supported extension of a media type: the first of its registered
/// extensions that the board supports.
pub open spec fn supported_extension_of(mime: MimeView) -> Option<Seq<char>> {
    match guessed_extensions(mime.type_, mime.subtype) {
        Some(exts) => first_supported(exts),
        None => None,
    }
}

/// The view of an optional string slice.
pub open spec fn opt_str_view(o: Option<&str>) -> Option<Seq<char>> {
    match o {
        Some(s) => Some(s@),
        None => None,
    }
}

fn is_supported(ext: &str) -> (b: bool)
    ensures
        b == is_supported_extension(ext@),
{
    str_eq(ext, "jpg") || str_eq(ext, "jpeg") || str_eq(ext, "png") || str_eq(ext, "gif")
        || str_eq(ext, "webp") || str_eq(ext, "mp4") || str_eq(ext, "webm") || str_eq(ext, "mov")
}

/// The first registered extension of `mime` that the board supports, if any.
pub fn get_supported_extension(mime: &MimeType) -> (r: Option<&'static str>)
    ensures
        opt_str_view(r) == supported_extension_of(mime@),
{
    let found = known_extensions(mime.type_.as_str(), mime.subtype.as_str());
    match found {
        None => None,
        Some(exts) => {
            let ghost all = exts.deep_view();
            assert(guessed_extensions(mime.type_@, mime.subtype@) == Some(all));
            let mut i: usize = 0;
            assert(all.skip(0) =~= all);
            while i < exts.len()
                invariant
                    all == exts.deep_view(),
                    guessed_extensions(mime.type_@, mime.subtype@) == Some(all),
                    i <= exts.len(),
                    first_supported(all) == first_supported(all.skip(i as int)),
                decreases exts.len() - i,
            {
                let ext = exts[i];
                assert(all.skip(i as int)[0] == ext@);
                if is_supported(ext) {
                    assert(first_supported(all.skip(i as int)) == Some(ext@));
                    return Some(ext);
                }
                assert(all.skip(i as int).drop_first() =~= all.skip(i + 1));
                i = i + 1;
            }
            assert(all.skip(i as int) =~= Seq::<Seq<char>>::empty());
            None
        }
    }
}

/// The extension of the file a post's picture is shown from: `jpg` for videos
/// (whose thumbnails are JPEG), else the supported extension of the type or `jpg`.
pub open spec fn picture_extension(mime: MimeView) -> Seq<char> {
    if mime.type_ == "video"@ {
        "jpg"@
    } else {
        match supported_extension_of(mime) {
            Some(e) => e,
            None => "jpg"@,
        }
    }
}

/// The folder a post's picture is shown from: the full picture (`images`) for
/// non-videos under the size limit and for GIFs, else the thumbnail (`thumbs`).
pub open spec fn picture_folder(mime: MimeView, size: int) -> Seq<char> {
    if mime.type_ != "video"@ && (size < FULL_PICTURE_LIMIT || picture_extension(mime) == "gif"@) {
        "images"@
    } else {
        "thumbs"@
    }
}

/// Folder and file extension of the picture the board shows for a post of
/// media type `mime` and `size` bytes.
pub fn picture_location(mime: &MimeType, size: i64) -> (r: (&'static str, &'static str))
    ensures
        r.0@ == picture_folder(mime@, size as int),
        r.1@ == picture_extension(mime@),
{
    let mut path = "thumbs";
    let mut fext = "jpg";
    if !str_eq(mime.type_.as_str(), video_type_name()) {
        fext = match get_supported_extension(mime) {
            Some(e) => e,
            None => "jpg",
        };
        if size < FULL_PICTURE_LIMIT || str_eq(fext, "gif") {
            path = "images";
        }
    }
    (path, fext)
}

/// The extension a picture is shown under is always one the board supports.
pub proof fn lemma_picture_extension_supported(mime: MimeView)
    ensures
        is_supported_extension(picture_extension(mime)),
{
    if mime.type_ != "video"@ {
        if let Some(exts) = guessed_extensions(mime.type_, mime.subtype) {
            lemma_first_supported_is_supported(exts);
        }
    }
}

/// What `first_supported` picks is a supported extension that occurs in the list.
pub proof fn lemma_first_supported_is_supported(exts: Seq<Seq<char>>)
    ensures
        first_supported(exts) matches Some(e) ==> is_supported_extension(e) && exts.contains(e),
    decreases exts.len(),
{
    if exts.len() > 0 && !is_supported_extension(exts[0]) {
        lemma_first_supported_is_supported(exts.drop_first());
        if let Some(e) = first_supported(exts.drop_first()) {
            let k = choose|k: int| 0 <= k < exts.drop_first().len() && exts.drop_first()[k] == e;
            assert(exts[k + 1] == e);
        }
    } else if exts.len() > 0 {
        assert(exts[0] == exts[0]);
    }
}

/// The supported extension of a media type is one the board supports and one
/// registered for that type; when there is none, no registered extension is
/// supported.
pub proof fn lemma_supported_extension_is_registered(mime: MimeView)
    ensures
        supported_extension_of(mime) matches Some(e) ==> is_supported_extension(e)
            && (guessed_extensions(mime.type_, mime.subtype) matches Some(exts) && exts.contains(e)),
        supported_extension_of(mime) is None ==> (guessed_extensions(mime.type_, mime.subtype) matches Some(exts)
            ==> forall|i: int| 0 <= i < exts.len() ==> !is_supported_extension(#[trigger] exts[i])),
{
    if let Some(exts) = guessed_extensions(mime.type_, mime.subtype) {
        lemma_first_supported_is_supported(exts);
        lemma_none_supported(exts);
    }
}

/// When `first_supported` finds nothing, no extension of the list is supported.
proof fn lemma_none_supported(exts: Seq<Seq<char>>)
    ensures
        first_supported(exts) is None ==> forall|i: int| 0 <= i < exts.len() ==> !is_supported_extension(#[trigger] exts[i]),
    decreases exts.len(),
{
    if exts.len() > 0 {
        lemma_none_supported(exts.drop_first());
        if first_supported(exts) is None {
            assert forall|i: int| 0 <= i < exts.len() implies !is_supported_extension(#[trigger] exts[i]) by {
                if i > 0 {
                    assert(exts[i] == exts.drop_first()[i - 1]);
                }
            }
        }
    }
}

} // verus!
