use media_shell::files::{
    DropEvent, DropPathData, File, FileData, Files, ThumbnailSource,
};
use media_shell::filters::FileType;
use media_shell::ingest::FileIngestQueue;
use media_shell::tiles::{Pane, TreeBehavior};

fn png_bytes() -> Vec<u8> {
    vec![0x89, 0x50, 0x4E, 0x47, 0x0D, 0x0A, 0x1A, 0x0A, 0x00, 0x00, 0x00, 0x0D]
}

fn data(name: &str, bytes: Vec<u8>, mime: Option<&str>) -> FileData {
    FileData { name: name.to_string(), bytes, mime: mime.map(|m| m.to_string()) }
}

#[test]
fn queue_is_fifo_one_per_call() {
    let mut q = FileIngestQueue::new();
    let n = 3;
    for i in 0..n {
        q.send(data(&format!("f{}.png", i), vec![i as u8 + 1], None));
    }
    assert_eq!(q.len(), n as usize);
    for i in 0..n {
        let got = q.try_receive().expect("one item per frame");
        assert_eq!(got.name, format!("f{}.png", i));
        assert_eq!(got.bytes, vec![i as u8 + 1]);
    }
    assert!(q.try_receive().is_none());
}

#[test]
fn send_picked_skips_empty_reads() {
    let mut q = FileIngestQueue::new();
    assert!(!q.send_picked("empty.png".to_string(), Vec::new()));
    assert_eq!(q.len(), 0);
    assert!(q.send_picked("a.png".to_string(), vec![1, 2]));
    assert_eq!(q.len(), 1);
    let got = q.try_receive().unwrap();
    assert_eq!(got.name, "a.png");
    assert_eq!(got.bytes, vec![1, 2]);
    assert_eq!(got.mime, None);
}

#[test]
fn handle_file_appends_accepted_only() {
    let mut pane = Files::default();
    pane.handle_file(data("a.png", vec![1, 2, 3], Some("image/png")));
    assert_eq!(pane.files.len(), 1);
    assert_eq!(pane.files[0].name, "a.png");
    assert_eq!(pane.files[0].bytes, vec![1, 2, 3]);
    assert_eq!(pane.files[0].kind, FileType::Image);
    assert_eq!(pane.files[0].video_thumbnail, None);

    pane.handle_file(data("b.exe", vec![9, 9], Some("application/nonsense")));
    assert_eq!(pane.files.len(), 1);
}

#[test]
fn empty_drop_is_a_no_op() {
    let mut pane = Files::default();

    // No path, empty in-memory payload.
    pane.handle_drop(&DropEvent {
        path: None,
        name: "a.png".to_string(),
        mime: "image/png".to_string(),
        bytes: Some(Vec::new()),
    });
    // No path, no payload at all.
    pane.handle_drop(&DropEvent {
        path: None,
        name: "a.png".to_string(),
        mime: "image/png".to_string(),
        bytes: None,
    });
    // No path and no name either.
    pane.handle_drop(&DropEvent {
        path: None,
        name: String::new(),
        mime: "image/png".to_string(),
        bytes: Some(vec![1, 2, 3]),
    });
    // A path whose read failed (empty contents).
    pane.handle_drop(&DropEvent {
        path: Some(DropPathData { base_name: Some("a.png".to_string()), contents: Vec::new() }),
        name: String::new(),
        mime: "image/png".to_string(),
        bytes: None,
    });
    // A path with no base name.
    pane.handle_drop(&DropEvent {
        path: Some(DropPathData { base_name: None, contents: vec![1, 2, 3] }),
        name: "a.png".to_string(),
        mime: "image/png".to_string(),
        bytes: None,
    });

    assert_eq!(pane.files.len(), 0);
}

#[test]
fn drop_prefers_path_over_inline_name() {
    let mut pane = Files::default();
    pane.handle_drop(&DropEvent {
        path: Some(DropPathData {
            base_name: Some("disk.png".to_string()),
            contents: vec![4, 5, 6],
        }),
        name: "inline.png".to_string(),
        mime: "image/png".to_string(),
        bytes: Some(vec![7, 8]),
    });
    assert_eq!(pane.files.len(), 1);
    assert_eq!(pane.files[0].name, "disk.png");
    assert_eq!(pane.files[0].bytes, vec![4, 5, 6]);
}

#[test]
fn import_two_files_keeps_only_the_image() {
    let mut pane = Files::default();
    let drops = vec![
        DropEvent {
            path: None,
            name: "a.png".to_string(),
            mime: "image/png".to_string(),
            bytes: Some(vec![1, 2, 3]),
        },
        DropEvent {
            path: None,
            name: "b.exe".to_string(),
            mime: String::new(),
            bytes: Some(vec![4, 5, 6]),
        },
    ];
    pane.frame_ingest(&drops);
    assert_eq!(pane.files.len(), 1);
    assert_eq!(pane.files[0].name, "a.png");
    assert_eq!(pane.files[0].kind, FileType::Image);
}

#[test]
fn frame_ingest_drains_one_queued_item_per_frame() {
    let mut pane = Files::default();
    assert!(pane.channel.send_picked("a.png".to_string(), png_bytes()));
    assert!(pane.channel.send_picked("b.png".to_string(), png_bytes()));
    let no_drops: Vec<DropEvent> = Vec::new();

    pane.frame_ingest(&no_drops);
    assert_eq!(pane.files.len(), 1);
    assert_eq!(pane.files[0].name, "a.png");
    assert_eq!(pane.channel.len(), 1);

    pane.frame_ingest(&no_drops);
    assert_eq!(pane.files.len(), 2);
    assert_eq!(pane.files[1].name, "b.png");
    assert_eq!(pane.channel.len(), 0);

    pane.frame_ingest(&no_drops);
    assert_eq!(pane.files.len(), 2);
}

#[test]
fn thumbnail_sources() {
    let image = File {
        name: "a.png".to_string(),
        bytes: vec![1],
        kind: FileType::Image,
        video_thumbnail: None,
    };
    assert_eq!(image.thumbnail_source(), ThumbnailSource::OwnBytes);
    let video = File {
        name: "v.mp4".to_string(),
        bytes: vec![1],
        kind: FileType::Video,
        video_thumbnail: None,
    };
    assert_eq!(video.thumbnail_source(), ThumbnailSource::VideoIcon);
    let video_with_frame = File {
        name: "v.mp4".to_string(),
        bytes: vec![1],
        kind: FileType::Video,
        video_thumbnail: Some(vec![2]),
    };
    assert_eq!(video_with_frame.thumbnail_source(), ThumbnailSource::VideoFrame);
    let sound = File {
        name: "s.mp3".to_string(),
        bytes: vec![1],
        kind: FileType::Sound,
        video_thumbnail: None,
    };
    assert_eq!(sound.thumbnail_source(), ThumbnailSource::SoundIcon);
}

#[test]
fn pane_titles() {
    let b = TreeBehavior::default();
    assert_eq!(b.tab_title_for_pane(&Pane::Files), "Files");
    assert_eq!(b.tab_title_for_pane(&Pane::Timeline), "Timeline");
    assert_eq!(b.tab_title_for_pane(&Pane::Video), "Video");
    assert_eq!(b.files.files.len(), 0);
}
