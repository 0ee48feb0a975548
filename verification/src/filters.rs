//! Classification of an incoming file into image, video or sound.
//!
//! A file is accepted only when two independent signals agree: its
//! (lowercased) extension must stand in the allow-list of a category, and
//! the MIME string — the declared one when present and not blank, else the
//! one sniffed from the leading bytes — must carry that category's
//! top-level type. The one exception is "svg", accepted as an image on the
//! extension alone, since vector images have no byte signature to sniff.

use vstd::prelude::*;
use crate::text::{
    ext_of, extension_of, is_blank, is_blank_chars, lower_chars, opt_str_view, str_eq,
    str_has_prefix, to_lower,
};
use crate::files::FileData;

verus! {

/// The semantic type of an accepted file.
#[derive(Debug, Clone, Copy, PartialEq, Eq, Structural)]
pub enum FileType {
    Image,
    Video,
    Sound,
}

/// The lowercased extension of a file name, when it has one.
pub open spec fn ext_lower_of(name: Seq<char>) -> Option<Seq<char>> {
    match ext_of(name) {
        Some(e) => Some(lower_chars(e)),
        None => None,
    }
}

/// The image extension allow-list.
pub open spec fn is_image_ext(e: Seq<char>) -> bool {
    e == "png"@ || e == "jpg"@ || e == "jpeg"@ || e == "gif"@ || e == "svg"@
}

/// The video extension allow-list.
pub open spec fn is_video_ext(e: Seq<char>) -> bool {
    e == "mp4"@ || e == "mov"@ || e == "avi"@
}

/// The sound extension allow-list.
pub open spec fn is_sound_ext(e: Seq<char>) -> bool {
    e == "mp3"@ || e == "wav"@ || e == "ogg"@
}

/// A MIME string whose top-level type is `image`.
pub open spec fn is_image_mime(m: Seq<char>) -> bool {
    "image/"@.is_prefix_of(m)
}

/// A MIME string whose top-level type is `video`.
pub open spec fn is_video_mime(m: Seq<char>) -> bool {
    "video/"@.is_prefix_of(m)
}

/// A MIME string whose top-level type is `audio`.
pub open spec fn is_sound_mime(m: Seq<char>) -> bool {
    "audio/"@.is_prefix_of(m)
}

/// The strict-AND policy on a lowercased extension and a MIME string: a
/// category is returned exactly when both signals are present and point at
/// it; a missing signal or a disagreement yields nothing.
pub open spec fn check_spec(extension: Option<Seq<char>>, mime: Option<Seq<char>>) -> Option<
    FileType,
> {
    match (extension, mime) {
        (Some(e), Some(m)) => if is_image_ext(e) && is_image_mime(m) {
            Some(FileType::Image)
        } else if is_video_ext(e) && is_video_mime(m) {
            Some(FileType::Video)
        } else if is_sound_ext(e) && is_sound_mime(m) {
            Some(FileType::Sound)
        } else {
            None
        },
        _ => None,
    }
}

/// What the content sniffer reports for these bytes: a best-guess MIME
/// type determined by the leading bytes alone, or nothing when no magic
/// number matches.
pub uninterp spec fn sniffed_mime(bytes: Seq<u8>) -> Option<Seq<char>>;

/// The MIME string classification works from: the declared one when it is
/// present and not blank, else whatever the content sniffer reports.
pub open spec fn effective_mime(declared: Option<Seq<char>>, bytes: Seq<u8>) -> Option<Seq<char>> {
    match declared {
        Some(m) => if !is_blank_chars(m) {
            Some(m)
        } else {
            sniffed_mime(bytes)
        },
        None => sniffed_mime(bytes),
    }
}

/// The full classification decision for one incoming file.
pub open spec fn classify_spec(
    name: Seq<char>,
    bytes: Seq<u8>,
    declared: Option<Seq<char>>,
) -> Option<FileType> {
    if ext_lower_of(name) == Some("svg"@) {
        Some(FileType::Image)
    } else {
        check_spec(ext_lower_of(name), effective_mime(declared, bytes))
    }
}

/// Relies on `infer::get` and `infer::Type::mime_type`: the sniffer walks a
/// fixed table of magic-number matchers, so its answer is a function of the
/// buffer alone.
#[verifier::external_body]
fn sniff_mime(bytes: &Vec<u8>) -> (r: Option<String>)
    ensures
        r.deep_view() == sniffed_mime(bytes@),
{
    infer::get(bytes.as_slice()).map(|kind| kind.mime_type().to_owned())
}

pub struct Filters {}

impl Filters {
    /// Classifies one incoming file, exactly as `classify_spec` says.
    pub fn determinate_type(file_data: &FileData) -> (r: Option<FileType>)
        ensures
            r == classify_spec(file_data.name@, file_data.bytes@, file_data.mime.deep_view()),
    {
        let raw_ext = extension_of(file_data.name.as_str());
        let extension: Option<String> = match raw_ext {
            Some(e) => Some(to_lower(e.as_str())),
            None => None,
        };

        let is_svg = match &extension {
            Some(e) => str_eq(e.as_str(), "svg"),
            None => false,
        };
        if is_svg {
            return Some(FileType::Image);
        }

        let mime_type: Option<String> = match &file_data.mime {
            Some(m) => if !is_blank(m.as_str()) {
                Some(m.clone())
            } else {
                sniff_mime(&file_data.bytes)
            },
            None => sniff_mime(&file_data.bytes),
        };

        let ext_ref: Option<&str> = match &extension {
            Some(e) => Some(e.as_str()),
            None => None,
        };
        let mime_ref: Option<&str> = match &mime_type {
            Some(m) => Some(m.as_str()),
            None => None,
        };
        Self::check_file_type(ext_ref, mime_ref)
    }

    /// The joint extension/MIME test, exactly as `check_spec` says.
    pub fn check_file_type(extension: Option<&str>, mime_type: Option<&str>) -> (r: Option<
        FileType,
    >)
        ensures
            r == check_spec(opt_str_view(extension), opt_str_view(mime_type)),
    {
        match (extension, mime_type) {
            (Some(ext), Some(mime)) => {
                if Self::is_image_extension(ext) && str_has_prefix(mime, "image/") {
                    Some(FileType::Image)
                } else if Self::is_video_extension(ext) && str_has_prefix(mime, "video/") {
                    Some(FileType::Video)
                } else if Self::is_sound_extension(ext) && str_has_prefix(mime, "audio/") {
                    Some(FileType::Sound)
                } else {
                    None
                }
            },
            _ => None,
        }
    }

    /// Whether `ext` stands in the image allow-list.
    pub fn is_image_extension(ext: &str) -> (r: bool)
        ensures
            r == is_image_ext(ext@),
    {
        str_eq(ext, "png") || str_eq(ext, "jpg") || str_eq(ext, "jpeg") || str_eq(ext, "gif")
            || str_eq(ext, "svg")
    }

    /// Whether `ext` stands in the video allow-list.
    pub fn is_video_extension(ext: &str) -> (r: bool)
        ensures
            r == is_video_ext(ext@),
    {
        str_eq(ext, "mp4") || str_eq(ext, "mov") || str_eq(ext, "avi")
    }

    /// Whether `ext` stands in the sound allow-list.
    pub fn is_sound_extension(ext: &str) -> (r: bool)
        ensures
            r == is_sound_ext(ext@),
    {
        str_eq(ext, "mp3") || str_eq(ext, "wav") || str_eq(ext, "ogg")
    }
}

/// The image extension allow-list, in the order the import dialog offers
/// it.
pub fn image_filter() -> (r: Vec<&'static str>)
    ensures
        r.deep_view() == seq!["png"@, "jpg"@, "jpeg"@, "gif"@, "svg"@],
{
    let r = vec!["png", "jpg", "jpeg", "gif", "svg"];
    proof {
        assert(r.deep_view() =~= seq!["png"@, "jpg"@, "jpeg"@, "gif"@, "svg"@]);
    }
    r
}

/// The video extension allow-list, in the order the import dialog offers
/// it.
pub fn video_filter() -> (r: Vec<&'static str>)
    ensures
        r.deep_view() == seq!["mp4"@, "mov"@, "avi"@],
{
    let r = vec!["mp4", "mov", "avi"];
    proof {
        assert(r.deep_view() =~= seq!["mp4"@, "mov"@, "avi"@]);
    }
    r
}

/// The sound extension allow-list, in the order the import dialog offers
/// it.
pub fn sound_filter() -> (r: Vec<&'static str>)
    ensures
        r.deep_view() == seq!["mp3"@, "wav"@, "ogg"@],
{
    let r = vec!["mp3", "wav", "ogg"];
    proof {
        assert(r.deep_view() =~= seq!["mp3"@, "wav"@, "ogg"@]);
    }
    r
}

/// No MIME string carries two top-level types at once.
pub proof fn lemma_mime_tops_exclusive(m: Seq<char>)
    ensures
        !(is_image_mime(m) && is_video_mime(m)),
        !(is_image_mime(m) && is_sound_mime(m)),
        !(is_video_mime(m) && is_sound_mime(m)),
{
    reveal_strlit("image/");
    reveal_strlit("video/");
    reveal_strlit("audio/");
    if is_image_mime(m) && is_video_mime(m) {
        assert(m.subrange(0, 6)[0] == m[0]);
        assert(false);
    }
    if is_image_mime(m) && is_sound_mime(m) {
        assert(m.subrange(0, 6)[0] == m[0]);
        assert(false);
    }
    if is_video_mime(m) && is_sound_mime(m) {
        assert(m.subrange(0, 6)[0] == m[0]);
        assert(false);
    }
}

/// No extension stands in two allow-lists at once.
pub proof fn lemma_ext_lists_disjoint(e: Seq<char>)
    ensures
        !(is_image_ext(e) && is_video_ext(e)),
        !(is_image_ext(e) && is_sound_ext(e)),
        !(is_video_ext(e) && is_sound_ext(e)),
{
    reveal_strlit("png");
    reveal_strlit("jpg");
    reveal_strlit("jpeg");
    reveal_strlit("gif");
    reveal_strlit("svg");
    reveal_strlit("mp4");
    reveal_strlit("mov");
    reveal_strlit("avi");
    reveal_strlit("mp3");
    reveal_strlit("wav");
    reveal_strlit("ogg");
    assert("png"@[0] == 'p' && "jpg"@[0] == 'j' && "jpeg"@.len() == 4 && "gif"@[0] == 'g'
        && "svg"@[0] == 's');
    assert("mp4"@[0] == 'm' && "mov"@[0] == 'm' && "avi"@[0] == 'a');
    assert("mp3"@[0] == 'm' && "wav"@[0] == 'w' && "ogg"@[0] == 'o');
    assert("mp4"@[2] == '4' && "mp3"@[2] == '3');
    assert("mov"@[1] == 'o' && "mp3"@[1] == 'p');
}

/// When the extension and the MIME string point at the same category, the
/// joint test accepts that category; when no category claims both signals
/// at once, it refuses. In particular a matched pair is accepted and a
/// mismatched pair is turned away.
pub proof fn lemma_extension_mime_agreement(e: Seq<char>, m: Seq<char>)
    ensures
        is_image_ext(e) && is_image_mime(m) ==> check_spec(Some(e), Some(m)) == Some(
            FileType::Image,
        ),
        is_video_ext(e) && is_video_mime(m) ==> check_spec(Some(e), Some(m)) == Some(
            FileType::Video,
        ),
        is_sound_ext(e) && is_sound_mime(m) ==> check_spec(Some(e), Some(m)) == Some(
            FileType::Sound,
        ),
        !(is_image_ext(e) && is_image_mime(m)) && !(is_video_ext(e) && is_video_mime(m)) && !(
        is_sound_ext(e) && is_sound_mime(m)) ==> check_spec(Some(e), Some(m)) is None,
{
    lemma_mime_tops_exclusive(m);
}

/// An "svg" extension is accepted as an image on its own, whatever the
/// bytes hold and whatever MIME was declared.
pub proof fn lemma_svg_is_image(name: Seq<char>, bytes: Seq<u8>, declared: Option<Seq<char>>)
    requires
        ext_lower_of(name) == Some("svg"@),
    ensures
        classify_spec(name, bytes, declared) == Some(FileType::Image),
{
}

/// With no declared MIME, the sniffed MIME settles the matter for a video
/// extension: a video MIME accepts the file, any other answer — another
/// top-level type, or no sniffed type at all — rejects it.
pub proof fn lemma_sniffed_mime_decides(name: Seq<char>, bytes: Seq<u8>, e: Seq<char>)
    requires
        ext_lower_of(name) == Some(e),
        is_video_ext(e),
    ensures
        sniffed_mime(bytes) is Some && is_video_mime(sniffed_mime(bytes)->Some_0)
            ==> classify_spec(name, bytes, None) == Some(FileType::Video),
        sniffed_mime(bytes) is Some && !is_video_mime(sniffed_mime(bytes)->Some_0)
            ==> classify_spec(name, bytes, None) is None,
        sniffed_mime(bytes) is None ==> classify_spec(name, bytes, None) is None,
{
    reveal_strlit("svg");
    reveal_strlit("mp4");
    reveal_strlit("mov");
    reveal_strlit("avi");
    assert("svg"@[0] == 's' && "mp4"@[0] == 'm' && "mov"@[0] == 'm' && "avi"@[0] == 'a');
    assert(e != "svg"@);
    lemma_ext_lists_disjoint(e);
    match sniffed_mime(bytes) {
        Some(m) => {
            lemma_mime_tops_exclusive(m);
        },
        None => {},
    }
}

/// A file whose extension stands in no allow-list is never accepted,
/// whatever its bytes and its declared MIME say; neither is a file without
/// any extension.
pub proof fn lemma_unknown_extension_rejected(
    name: Seq<char>,
    bytes: Seq<u8>,
    declared: Option<Seq<char>>,
)
    requires
        (match ext_lower_of(name) {
            Some(e) => !is_image_ext(e) && !is_video_ext(e) && !is_sound_ext(e),
            None => true,
        }),
    ensures
        classify_spec(name, bytes, declared) is None,
{
}

} // verus!
