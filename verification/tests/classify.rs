use media_shell::files::FileData;
use media_shell::filters::{image_filter, sound_filter, video_filter, FileType, Filters};
use media_shell::text::{extension_of, is_blank, str_eq, str_has_prefix, to_lower};

fn png_bytes() -> Vec<u8> {
    vec![0x89, 0x50, 0x4E, 0x47, 0x0D, 0x0A, 0x1A, 0x0A, 0x00, 0x00, 0x00, 0x0D]
}

fn mp4_bytes() -> Vec<u8> {
    vec![
        0x00, 0x00, 0x00, 0x18, b'f', b't', b'y', b'p', b'i', b's', b'o', b'm', 0x00, 0x00,
    ]
}

fn data(name: &str, bytes: Vec<u8>, mime: Option<&str>) -> FileData {
    FileData { name: name.to_string(), bytes, mime: mime.map(|m| m.to_string()) }
}

#[test]
fn matched_pairs_accepted() {
    let cases: Vec<(&str, &str, FileType)> = vec![
        ("png", "image/png", FileType::Image),
        ("jpg", "image/jpeg", FileType::Image),
        ("jpeg", "image/jpeg", FileType::Image),
        ("gif", "image/gif", FileType::Image),
        ("svg", "image/svg+xml", FileType::Image),
        ("mp4", "video/mp4", FileType::Video),
        ("mov", "video/quicktime", FileType::Video),
        ("avi", "video/x-msvideo", FileType::Video),
        ("mp3", "audio/mpeg", FileType::Sound),
        ("wav", "audio/wav", FileType::Sound),
        ("ogg", "audio/ogg", FileType::Sound),
    ];
    for (ext, mime, kind) in cases {
        assert_eq!(Filters::check_file_type(Some(ext), Some(mime)), Some(kind));
    }
}

#[test]
fn mismatched_pairs_rejected() {
    let cases: Vec<(&str, &str)> = vec![
        ("png", "video/mp4"),
        ("png", "audio/mpeg"),
        ("mp4", "image/png"),
        ("mp4", "audio/mpeg"),
        ("mp3", "image/png"),
        ("mp3", "video/mp4"),
        ("gif", "application/zip"),
    ];
    for (ext, mime) in cases {
        assert_eq!(Filters::check_file_type(Some(ext), Some(mime)), None);
    }
}

#[test]
fn missing_signal_rejected() {
    assert_eq!(Filters::check_file_type(Some("png"), None), None);
    assert_eq!(Filters::check_file_type(None, Some("image/png")), None);
    assert_eq!(Filters::check_file_type(None, None), None);
}

#[test]
fn svg_is_image_regardless_of_bytes() {
    let junk = data("photo.svg", vec![0xDE, 0xAD, 0xBE, 0xEF], None);
    assert_eq!(Filters::determinate_type(&junk), Some(FileType::Image));
    let empty = data("photo.svg", Vec::new(), None);
    assert_eq!(Filters::determinate_type(&empty), Some(FileType::Image));
}

#[test]
fn declared_mime_decides_mp4() {
    let video = data("clip.mp4", vec![1, 2, 3], Some("video/mp4"));
    assert_eq!(Filters::determinate_type(&video), Some(FileType::Video));
    let image = data("clip.mp4", vec![1, 2, 3], Some("image/png"));
    assert_eq!(Filters::determinate_type(&image), None);
}

#[test]
fn sniffed_mime_decides_when_none_declared() {
    let real_mp4 = data("clip.mp4", mp4_bytes(), None);
    assert_eq!(Filters::determinate_type(&real_mp4), Some(FileType::Video));
    let real_png = data("photo.png", png_bytes(), None);
    assert_eq!(Filters::determinate_type(&real_png), Some(FileType::Image));
    let wrong_content = data("clip.mp4", png_bytes(), None);
    assert_eq!(Filters::determinate_type(&wrong_content), None);
    let unsniffable = data("photo.png", vec![0, 1, 2, 3], None);
    assert_eq!(Filters::determinate_type(&unsniffable), None);
}

#[test]
fn blank_declared_mime_falls_back_to_sniffing() {
    let blank = data("photo.png", png_bytes(), Some("   "));
    assert_eq!(Filters::determinate_type(&blank), Some(FileType::Image));
    let empty = data("photo.png", png_bytes(), Some(""));
    assert_eq!(Filters::determinate_type(&empty), Some(FileType::Image));
}

#[test]
fn unknown_extension_rejected() {
    let zip = data("archive.zip", png_bytes(), Some("image/png"));
    assert_eq!(Filters::determinate_type(&zip), None);
    let none = data("noextension", png_bytes(), Some("image/png"));
    assert_eq!(Filters::determinate_type(&none), None);
    let hidden = data(".gitignore", png_bytes(), Some("image/png"));
    assert_eq!(Filters::determinate_type(&hidden), None);
}

#[test]
fn extension_is_lowercased() {
    let upper = data("PHOTO.PNG", vec![1, 2, 3], Some("image/png"));
    assert_eq!(Filters::determinate_type(&upper), Some(FileType::Image));
    let upper_svg = data("DRAWING.SVG", vec![1], None);
    assert_eq!(Filters::determinate_type(&upper_svg), Some(FileType::Image));
}

#[test]
fn extension_extraction() {
    assert_eq!(extension_of("a.png"), Some("png".to_string()));
    assert_eq!(extension_of("a.b.c"), Some("c".to_string()));
    assert_eq!(extension_of("noext"), None);
    assert_eq!(extension_of(".bashrc"), None);
    assert_eq!(extension_of(".hidden.txt"), Some("txt".to_string()));
    assert_eq!(extension_of("trailing."), Some("".to_string()));
}

#[test]
fn text_helpers() {
    assert_eq!(to_lower("PnG"), "png".to_string());
    assert_eq!(to_lower("MiXeD 123 \u{00C4}"), "mixed 123 \u{00C4}".to_string());
    assert!(str_eq("abc", "abc"));
    assert!(!str_eq("abc", "abd"));
    assert!(!str_eq("abc", "ab"));
    assert!(str_has_prefix("image/png", "image/"));
    assert!(!str_has_prefix("image/png", "video/"));
    assert!(!str_has_prefix("img", "image/"));
    assert!(is_blank(""));
    assert!(is_blank(" \t\n\u{00A0}"));
    assert!(!is_blank(" x "));
}

#[test]
fn filter_lists_match_allow_lists() {
    assert_eq!(image_filter(), vec!["png", "jpg", "jpeg", "gif", "svg"]);
    assert_eq!(video_filter(), vec!["mp4", "mov", "avi"]);
    assert_eq!(sound_filter(), vec!["mp3", "wav", "ogg"]);
}
