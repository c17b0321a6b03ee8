//! The image that is laid over the app.
use vstd::prelude::*;

use crate::paths;
use crate::plan_laws;
use crate::settings::BackendSettings;
use crate::text;

verus! {

/// The content type of an image whose file name has the given extension, upper and lower case
/// counting the same.
pub open spec fn image_type(extension: Seq<char>) -> Option<Seq<char>> {
    let e = text::lowered(extension);
    if e == "png"@ {
        Some("image/png"@)
    } else if e == "jpg"@ || e == "jpeg"@ {
        Some("image/jpeg"@)
    } else if e == "webp"@ {
        Some("image/webp"@)
    } else if e == "gif"@ {
        Some("image/gif"@)
    } else if e == "bmp"@ {
        Some("image/bmp"@)
    } else {
        None
    }
}

/// Upper and lower case in the extension of an image make no difference.
pub proof fn image_types_ignore_case(a: Seq<char>, b: Seq<char>)
    requires
        text::lowered(a) == text::lowered(b),
    ensures
        image_type(a) == image_type(b),
{
}

/// An image is known by the extension of its file name: each of the formats has a content type of
/// its own, `jpg` being short for `jpeg`, and no other extension has one.
pub proof fn images_are_known_by_their_extension(name: Seq<char>, extension: Seq<char>)
    requires
        name.len() > 0,
        !extension.contains('.'),
    ensures
        ({
            let made = image_type_of(Some(name.push('.') + extension));
            let e = text::lowered(extension);
            &&& e == "png"@ ==> made == Some("image/png"@)
            &&& e == "jpg"@ ==> made == Some("image/jpeg"@)
            &&& e == "jpeg"@ ==> made == Some("image/jpeg"@)
            &&& e == "webp"@ ==> made == Some("image/webp"@)
            &&& e == "gif"@ ==> made == Some("image/gif"@)
            &&& e == "bmp"@ ==> made == Some("image/bmp"@)
            &&& made is Some ==> e == "png"@ || e == "jpg"@ || e == "jpeg"@ || e == "webp"@ || e
                == "gif"@ || e == "bmp"@
        }),
        image_type_of(Some(extension)) is None,
        image_type_of(None) is None,
{
    plan_laws::names_split_at_their_last_dot(name, extension);
    reveal_strlit("png");
    reveal_strlit("jpg");
    reveal_strlit("jpeg");
    reveal_strlit("webp");
    reveal_strlit("gif");
    reveal_strlit("bmp");
    assert("png"@[0] == 'p' && "jpg"@[0] == 'j' && "jpeg"@[0] == 'j' && "webp"@[0] == 'w' && "gif"@[0]
        == 'g' && "bmp"@[0] == 'b');
}

/// The image that is laid over the app is the one at the path that the user gave, without the
/// white space around it, where the user wants one and gave a path.
pub proof fn user_chooses_the_image(settings: BackendSettings)
    ensures
        overlay_path(settings) is Some <==> settings.codex_app_image_overlay_enabled
            && text::trimmed(settings.codex_app_image_overlay_path@).len() > 0,
        overlay_path(settings) is Some ==> overlay_path(settings)->0 == text::trimmed(
            settings.codex_app_image_overlay_path@,
        ),
{
}

/// An image at a path without a content type is not laid over the app.
pub proof fn images_need_a_content_type(path: Seq<char>, content_type: Seq<char>)
    ensures
        source_of(Some(path), Some(content_type)) == Some((path, content_type)),
        source_of(Some(path), None) is None,
        source_of(None, Some(content_type)) is None,
{
}

/// The content type of an image with the given file name.
pub open spec fn image_type_of(file_name: Option<Seq<char>>) -> Option<Seq<char>> {
    match file_name {
        Some(name) => match paths::extension(name) {
            Some(extension) => image_type(extension),
            None => None,
        },
        None => None,
    }
}

/// The content type of an image whose file name has the extension.
pub fn image_type_for_extension(extension: &str) -> (r: Option<&'static str>)
    ensures
        r.deep_view() == image_type(extension@),
        r is Some <==> text::lowered(extension@) == "png"@ || text::lowered(extension@) == "jpg"@
            || text::lowered(extension@) == "jpeg"@ || text::lowered(extension@) == "webp"@
            || text::lowered(extension@) == "gif"@ || text::lowered(extension@) == "bmp"@,
        text::lowered(extension@) == "jpg"@ ==> r->0@ == "image/jpeg"@,
        r is Some && text::lowered(extension@) != "jpg"@ ==> r->0@ == "image/"@ + text::lowered(
            extension@,
        ),
{
    proof {
        reveal_strlit("png");
        reveal_strlit("jpg");
        reveal_strlit("jpeg");
        reveal_strlit("webp");
        reveal_strlit("gif");
        reveal_strlit("bmp");
        reveal_strlit("image/");
        reveal_strlit("image/png");
        reveal_strlit("image/jpeg");
        reveal_strlit("image/webp");
        reveal_strlit("image/gif");
        reveal_strlit("image/bmp");
        assert("image/"@ + "png"@ =~= "image/png"@);
        assert("image/"@ + "jpeg"@ =~= "image/jpeg"@);
        assert("image/"@ + "webp"@ =~= "image/webp"@);
        assert("image/"@ + "gif"@ =~= "image/gif"@);
        assert("image/"@ + "bmp"@ =~= "image/bmp"@);
        assert("png"@[0] == 'p' && "jpg"@[0] == 'j' && "jpg"@[1] == 'p' && "jpg"@.len() == 3
            && "jpeg"@.len() == 4 && "webp"@[0] == 'w' && "gif"@[0] == 'g' && "bmp"@[0] == 'b');
    }
    let extension: String = text::to_ascii_lowercase(extension);
    let e: &str = extension.as_str();
    if text::same_text(e, "png") {
        Some("image/png")
    } else if text::same_text(e, "jpg") || text::same_text(e, "jpeg") {
        Some("image/jpeg")
    } else if text::same_text(e, "webp") {
        Some("image/webp")
    } else if text::same_text(e, "gif") {
        Some("image/gif")
    } else if text::same_text(e, "bmp") {
        Some("image/bmp")
    } else {
        None
    }
}

/// The content type of an image with the given file name.
pub fn image_type_for_name(file_name: Option<&str>) -> (r: Option<&'static str>)
    ensures
        r.deep_view() == image_type_of(file_name.deep_view()),
{
    match file_name {
        Some(name) => match paths::split_file_name(name).1 {
            Some(extension) => image_type_for_extension(extension.as_str()),
            None => None,
        },
        None => None,
    }
}

/// What may be the content type of an image at a path: the one for the file name that the platform
/// finds. It is the same on every platform for a portable path, for one that ends in a name with
/// an extension, and for one that shows no extension.
pub open spec fn may_be_image_type(path: Seq<char>, content_type: Option<Seq<char>>) -> bool {
    &&& exists|file_name: Option<Seq<char>>| #[trigger]
        paths::is_file_name_of(path, file_name) && content_type == image_type_of(file_name)
    &&& paths::is_portable(path) ==> content_type == image_type_of(paths::file_name(path))
    &&& paths::ends_in_name(path) && paths::extension(paths::tail(path)) is Some ==> content_type
        == image_type(paths::extension(paths::tail(path))->0)
    &&& paths::shows_no_extension(path) ==> content_type is None
}

/// No extension of an image holds a character that may separate the parts of a path.
proof fn lemma_image_extension(extension: Seq<char>)
    requires
        paths::holds_separator(extension),
    ensures
        image_type(extension) is None,
{
    reveal_strlit("png");
    reveal_strlit("jpg");
    reveal_strlit("jpeg");
    reveal_strlit("webp");
    reveal_strlit("gif");
    reveal_strlit("bmp");
    let e = text::lowered(extension);
    let k = choose|k: int|
        0 <= k < extension.len() && paths::may_separate(#[trigger] extension[k]);
    assert(e.len() == extension.len() && paths::may_separate(e[k]));
    assert("png"@.len() == 3 && (k < 3 ==> !paths::may_separate("png"@[k])));
    assert("jpg"@.len() == 3 && (k < 3 ==> !paths::may_separate("jpg"@[k])));
    assert("jpeg"@.len() == 4 && (k < 4 ==> !paths::may_separate("jpeg"@[k])));
    assert("webp"@.len() == 4 && (k < 4 ==> !paths::may_separate("webp"@[k])));
    assert("gif"@.len() == 3 && (k < 3 ==> !paths::may_separate("gif"@[k])));
    assert("bmp"@.len() == 3 && (k < 3 ==> !paths::may_separate("bmp"@[k])));
}

/// The content type of the image at the path.
pub fn overlay_image_content_type(path: &str) -> (r: Option<&'static str>)
    ensures
        paths::is_portable(path@) ==> r.deep_view() == image_type_of(paths::file_name(path@)),
        paths::ends_in_name(path@) && paths::extension(paths::tail(path@)) is Some
            ==> r.deep_view() == image_type(paths::extension(paths::tail(path@))->0),
        paths::shows_no_extension(path@) ==> r is None,
        may_be_image_type(path@, r.deep_view()),
{
    let name: Option<String> = paths::path_file_name(path);
    let ghost file_name = name.deep_view();
    proof {
        if paths::ends_in_name(path@) && paths::extension(paths::tail(path@)) is Some {
            paths::lemma_extension_of_end(name->0@, paths::tail(path@));
        }
        if paths::shows_no_extension(path@) && image_type_of(file_name) is Some {
            paths::lemma_no_extension(path@, name->0@);
            lemma_image_extension(paths::extension(name->0@)->0);
        }
    }
    let r = match &name {
        Some(name) => image_type_for_name(Some(name.as_str())),
        None => image_type_for_name(None),
    };
    assert(paths::is_file_name_of(path@, file_name) && r.deep_view() == image_type_of(file_name));
    r
}

/// The image that is laid over the app, if the user wants one: its path.
pub open spec fn overlay_path(settings: BackendSettings) -> Option<Seq<char>> {
    let path = text::trimmed(settings.codex_app_image_overlay_path@);
    if settings.codex_app_image_overlay_enabled && path.len() > 0 {
        Some(path)
    } else {
        None
    }
}

/// An image that is laid over the app.
#[derive(Debug)]
pub struct OverlaySource {
    pub path: String,
    pub content_type: &'static str,
}

/// The path of the image that is laid over the app, if the user wants one.
pub fn overlay_image_path(settings: &BackendSettings) -> (r: Option<String>)
    ensures
        r.deep_view() == overlay_path(*settings),
        r is Some <==> settings.codex_app_image_overlay_enabled && text::trimmed(
            settings.codex_app_image_overlay_path@,
        ).len() > 0,
        r is Some ==> r->0@ == text::trimmed(settings.codex_app_image_overlay_path@),
{
    if !settings.codex_app_image_overlay_enabled {
        return None;
    }
    let path: String = text::trim(settings.codex_app_image_overlay_path.as_str());
    if path.as_str().is_empty() {
        None
    } else {
        Some(path)
    }
}

/// `OverlaySource`, as its path and its content type.
pub open spec fn source_view(source: Option<OverlaySource>) -> Option<(Seq<char>, Seq<char>)> {
    match source {
        Some(inner) => Some((inner.path@, inner.content_type@)),
        None => None,
    }
}

/// The image at a path that may have been given, if it has a content type.
pub open spec fn source_of(path: Option<Seq<char>>, content_type: Option<Seq<char>>) -> Option<
    (Seq<char>, Seq<char>),
> {
    if path is Some && content_type is Some {
        Some((path->0, content_type->0))
    } else {
        None
    }
}

/// The image at the path, if it has a content type.
pub fn overlay_source_at(path: String, content_type: Option<&'static str>) -> (r: Option<
    OverlaySource,
>)
    ensures
        source_view(r) == source_of(Some(path@), content_type.deep_view()),
        r is Some <==> content_type is Some,
        r is Some ==> r->0.path@ == path@ && r->0.content_type@ == content_type->0@,
{
    match content_type {
        Some(content_type) => Some(OverlaySource { path, content_type }),
        None => None,
    }
}

/// The image that is laid over the app, if the user wants one that is known as an image by its
/// file name.
pub fn overlay_source(settings: &BackendSettings) -> (r: Option<OverlaySource>)
    ensures
        overlay_path(*settings) is None ==> r is None,
        r is Some ==> settings.codex_app_image_overlay_enabled && r->0.path@ == text::trimmed(
            settings.codex_app_image_overlay_path@,
        ),
        overlay_path(*settings) is Some ==> exists|content_type: Option<Seq<char>>| #[trigger]
            may_be_image_type(overlay_path(*settings)->0, content_type) && source_view(r)
                == source_of(overlay_path(*settings), content_type),
        r is Some ==> overlay_path(*settings) == Some(r->0.path@),
        overlay_path(*settings) is Some && paths::is_portable(overlay_path(*settings)->0)
            ==> source_view(r) == source_of(
            overlay_path(*settings),
            image_type_of(paths::file_name(overlay_path(*settings)->0)),
        ),
        overlay_path(*settings) is Some && paths::ends_in_name(overlay_path(*settings)->0)
            && paths::extension(paths::tail(overlay_path(*settings)->0)) is Some ==> source_view(r)
            == source_of(
            overlay_path(*settings),
            image_type(paths::extension(paths::tail(overlay_path(*settings)->0))->0),
        ),
        overlay_path(*settings) is Some && paths::shows_no_extension(overlay_path(*settings)->0)
            ==> r is None,
{
    match overlay_image_path(settings) {
        Some(path) => {
            let content_type = overlay_image_content_type(path.as_str());
            overlay_source_at(path, content_type)
        },
        None => None,
    }
}

} // verus!
