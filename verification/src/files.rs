//! The Files pane: the append-only gallery list and the per-frame ingestion
//! decisions.
//!
//! Every stored file carries a successfully determined type; a file that
//! classification rejects, an empty read and a drop event with no
//! resolvable name are all dropped without a trace. The pane mutates its
//! list only here, once per frame.

use vstd::prelude::*;
use crate::filters::{classify_spec, FileType, Filters};
use crate::ingest::FileIngestQueue;

verus! {

/// One incoming file, as a drop event or the file picker hands it over.
pub struct FileData {
    pub name: String,
    pub bytes: Vec<u8>,
    pub mime: Option<String>,
}

/// The mathematical content of a `FileData`.
#[verifier::ext_equal]
pub struct FileDataView {
    pub name: Seq<char>,
    pub bytes: Seq<u8>,
    pub mime: Option<Seq<char>>,
}

impl View for FileData {
    type V = FileDataView;

    open spec fn view(&self) -> FileDataView {
        FileDataView { name: self.name@, bytes: self.bytes@, mime: self.mime.deep_view() }
    }
}

/// One successfully classified file held by the pane.
pub struct File {
    pub name: String,
    pub bytes: Vec<u8>,
    pub kind: FileType,
    pub video_thumbnail: Option<Vec<u8>>,
}

/// The mathematical content of a `File`.
#[verifier::ext_equal]
pub struct FileView {
    pub name: Seq<char>,
    pub bytes: Seq<u8>,
    pub kind: FileType,
    pub video_thumbnail: Option<Seq<u8>>,
}

impl View for File {
    type V = FileView;

    open spec fn view(&self) -> FileView {
        FileView {
            name: self.name@,
            bytes: self.bytes@,
            kind: self.kind,
            video_thumbnail: self.video_thumbnail.deep_view(),
        }
    }
}

/// Where the gallery gets a cell's thumbnail from.
#[derive(Debug, Clone, Copy, PartialEq, Eq, Structural)]
pub enum ThumbnailSource {
    /// An image is previewed from its own bytes.
    OwnBytes,
    /// A video with a derived thumbnail frame shows that frame.
    VideoFrame,
    /// A video without one shows the video placeholder icon.
    VideoIcon,
    /// A sound file shows the sound placeholder icon.
    SoundIcon,
}

/// The thumbnail decision for one stored file.
pub open spec fn thumbnail_source_spec(f: FileView) -> ThumbnailSource {
    match f.kind {
        FileType::Image => ThumbnailSource::OwnBytes,
        FileType::Video => if f.video_thumbnail is Some {
            ThumbnailSource::VideoFrame
        } else {
            ThumbnailSource::VideoIcon
        },
        FileType::Sound => ThumbnailSource::SoundIcon,
    }
}

impl File {
    /// Which thumbnail the gallery shows for this file.
    pub fn thumbnail_source(&self) -> (r: ThumbnailSource)
        ensures
            r == thumbnail_source_spec(self@),
    {
        match self.kind {
            FileType::Image => ThumbnailSource::OwnBytes,
            FileType::Video => match &self.video_thumbnail {
                Some(_) => ThumbnailSource::VideoFrame,
                None => ThumbnailSource::VideoIcon,
            },
            FileType::Sound => ThumbnailSource::SoundIcon,
        }
    }
}

/// What the pane stores for an incoming file: its classified form, or
/// nothing when classification rejects it.
pub open spec fn ingested_of(fd: FileDataView) -> Option<FileView> {
    match classify_spec(fd.name, fd.bytes, fd.mime) {
        Some(k) => Some(
            FileView { name: fd.name, bytes: fd.bytes, kind: k, video_thumbnail: None },
        ),
        None => None,
    }
}

/// One file handed over by a drag-and-drop that carried a filesystem path,
/// after the shell resolved that path: the base name the path ends in (a
/// path need not have one), and the bytes read from it, empty when the
/// read failed.
pub struct DropPathData {
    pub base_name: Option<String>,
    pub contents: Vec<u8>,
}

/// The mathematical content of a `DropPathData`.
#[verifier::ext_equal]
pub struct DropPathView {
    pub base_name: Option<Seq<char>>,
    pub contents: Seq<u8>,
}

impl View for DropPathData {
    type V = DropPathView;

    open spec fn view(&self) -> DropPathView {
        DropPathView { base_name: self.base_name.deep_view(), contents: self.contents@ }
    }
}

/// One drag-and-drop event, reduced to plain values.
pub struct DropEvent {
    pub path: Option<DropPathData>,
    pub name: String,
    pub mime: String,
    pub bytes: Option<Vec<u8>>,
}

/// The mathematical content of a `DropEvent`.
#[verifier::ext_equal]
pub struct DropEventView {
    pub path: Option<DropPathView>,
    pub name: Seq<char>,
    pub mime: Seq<char>,
    pub bytes: Option<Seq<u8>>,
}

impl View for DropEvent {
    type V = DropEventView;

    open spec fn view(&self) -> DropEventView {
        DropEventView {
            path: match self.path {
                Some(p) => Some(p@),
                None => None,
            },
            name: self.name@,
            mime: self.mime@,
            bytes: self.bytes.deep_view(),
        }
    }
}

/// The name a drop event resolves to: the path's base name when the event
/// carries a path (nothing when that path has none), else the event's own
/// name when it is not empty.
pub open spec fn drop_name_of(d: DropEventView) -> Option<Seq<char>> {
    match d.path {
        Some(p) => p.base_name,
        None => if d.name.len() > 0 {
            Some(d.name)
        } else {
            None
        },
    }
}

/// The bytes a drop event resolves to: what was read from the path when
/// the event carries one, else the in-memory payload, empty when there is
/// none.
pub open spec fn drop_bytes_of(d: DropEventView) -> Seq<u8> {
    match d.path {
        Some(p) => p.contents,
        None => match d.bytes {
            Some(b) => b,
            None => Seq::empty(),
        },
    }
}

/// The pending import a drop event yields: nothing when no name resolves
/// or the resolved bytes are empty; else the name, the bytes and the
/// event's declared MIME.
pub open spec fn resolve_drop_spec(d: DropEventView) -> Option<FileDataView> {
    match drop_name_of(d) {
        Some(n) => if drop_bytes_of(d).len() > 0 {
            Some(FileDataView { name: n, bytes: drop_bytes_of(d), mime: Some(d.mime) })
        } else {
            None
        },
        None => None,
    }
}

/// What one drop event adds to the gallery, classification included.
pub open spec fn drop_ingested(d: DropEventView) -> Option<FileView> {
    match resolve_drop_spec(d) {
        Some(fd) => ingested_of(fd),
        None => None,
    }
}

/// A drop event whose bytes resolve to an empty payload, or to which no
/// name resolves at all, never adds a gallery row: it is discarded before
/// classification is even consulted.
pub proof fn lemma_empty_drop_ignored(d: DropEventView)
    requires
        drop_bytes_of(d).len() == 0 || drop_name_of(d) is None,
    ensures
        resolve_drop_spec(d) is None,
        drop_ingested(d) is None,
{
}

/// Every stored row comes out of classification: its kind is the one
/// classification determined for the incoming file, and name and bytes are
/// kept as they arrived, with no thumbnail derived yet.
pub proof fn lemma_stored_row_is_classified(fd: FileDataView)
    ensures
        ingested_of(fd) matches Some(f) ==> classify_spec(fd.name, fd.bytes, fd.mime) == Some(
            f.kind,
        ) && f.name == fd.name && f.bytes == fd.bytes && f.video_thumbnail is None,
{
}

/// A row added by a drop event never holds an empty byte payload: empty
/// reads are filtered at ingestion.
pub proof fn lemma_drop_rows_nonempty(d: DropEventView)
    ensures
        drop_ingested(d) matches Some(f) ==> f.bytes.len() > 0,
{
}

/// A sequence of zero or one gallery rows.
pub open spec fn opt_file_seq(o: Option<FileView>) -> Seq<FileView> {
    match o {
        Some(f) => seq![f],
        None => Seq::empty(),
    }
}

/// The gallery rows that a sequence of drop events adds, in order.
pub open spec fn drops_ingested(ds: Seq<DropEventView>) -> Seq<FileView>
    decreases ds.len(),
{
    if ds.len() == 0 {
        Seq::empty()
    } else {
        drops_ingested(ds.drop_last()) + opt_file_seq(drop_ingested(ds.last()))
    }
}

/// What one queue poll adds to the gallery: the classified head item, when
/// the queue is not empty and the head passes classification.
pub open spec fn polled_ingested(pending: Seq<FileDataView>) -> Seq<FileView> {
    if pending.len() > 0 {
        opt_file_seq(ingested_of(pending[0]))
    } else {
        Seq::empty()
    }
}

/// The views of a vector of drop events.
pub open spec fn drops_view(ds: Seq<DropEvent>) -> Seq<DropEventView> {
    ds.map_values(|d: DropEvent| d@)
}

proof fn lemma_drops_ingested_push(s: Seq<DropEventView>, x: DropEventView)
    ensures
        drops_ingested(s.push(x)) == drops_ingested(s) + opt_file_seq(drop_ingested(x)),
{
    assert(s.push(x).drop_last() =~= s);
    assert(s.push(x).last() == x);
}

/// Copies a byte vector.
fn clone_bytes(v: &Vec<u8>) -> (r: Vec<u8>)
    ensures
        r@ == v@,
{
    let r = v.clone();
    proof {
        assert(r@ =~= v@);
    }
    r
}

/// The Files pane state: the gallery list and the ingest queue.
pub struct Files {
    pub files: Vec<File>,
    pub channel: FileIngestQueue,
}

/// The mathematical content of the pane: the gallery rows and the queued
/// pending imports.
#[verifier::ext_equal]
pub struct FilesView {
    pub files: Seq<FileView>,
    pub pending: Seq<FileDataView>,
}

impl View for Files {
    type V = FilesView;

    open spec fn view(&self) -> FilesView {
        FilesView { files: self.files@.map_values(|f: File| f@), pending: self.channel@ }
    }
}

impl Files {
    /// A pane with no files and an empty queue.
    pub fn default() -> (r: Self)
        ensures
            r@.files == Seq::<FileView>::empty(),
            r@.pending == Seq::<FileDataView>::empty(),
    {
        let r = Files { files: Vec::new(), channel: FileIngestQueue::new() };
        proof {
            assert(r@.files =~= Seq::<FileView>::empty());
        }
        r
    }

    /// Classifies one incoming file; appends it when accepted, else leaves
    /// the gallery as it is. The queue is untouched either way.
    pub fn handle_file(&mut self, file_data: FileData)
        ensures
            final(self)@.pending == old(self)@.pending,
            (match ingested_of(file_data@) {
                Some(f) => final(self)@.files == old(self)@.files.push(f),
                None => final(self)@.files == old(self)@.files,
            }),
    {
        let ghost fd0 = file_data@;
        let file_type = Filters::determinate_type(&file_data);
        match file_type {
            Some(file_type) => {
                let FileData { name, bytes, mime: _ } = file_data;
                let f = File { name, bytes, kind: file_type, video_thumbnail: None };
                proof {
                    assert(f@ == ingested_of(fd0)->Some_0);
                }
                self.files.push(f);
                proof {
                    assert(self@.files =~= old(self)@.files.push(ingested_of(fd0)->Some_0));
                }
            },
            None => {},
        }
    }

    /// Resolves a drop event to a pending import, as `resolve_drop_spec`
    /// says.
    pub fn resolve_drop(file: &DropEvent) -> (r: Option<FileData>)
        ensures
            (match r {
                Some(fd) => resolve_drop_spec(file@) == Some(fd@),
                None => resolve_drop_spec(file@) is None,
            }),
    {
        let name: Option<String> = match &file.path {
            Some(p) => match &p.base_name {
                Some(nm) => Some(nm.clone()),
                None => None,
            },
            None => if !file.name.as_str().is_empty() {
                Some(file.name.clone())
            } else {
                None
            },
        };
        match name {
            Some(n) => {
                let bytes: Vec<u8> = match &file.path {
                    Some(p) => clone_bytes(&p.contents),
                    None => match &file.bytes {
                        Some(b) => clone_bytes(b),
                        None => Vec::new(),
                    },
                };
                if bytes.len() > 0 {
                    let fd = FileData { name: n, bytes, mime: Some(file.mime.clone()) };
                    proof {
                        assert(fd@ =~= resolve_drop_spec(file@)->Some_0);
                    }
                    Some(fd)
                } else {
                    None
                }
            },
            None => None,
        }
    }

    /// Ingests one drop event, as `drop_ingested` says. The queue is
    /// untouched.
    pub fn handle_drop(&mut self, file: &DropEvent)
        ensures
            final(self)@.pending == old(self)@.pending,
            (match drop_ingested(file@) {
                Some(f) => final(self)@.files == old(self)@.files.push(f),
                None => final(self)@.files == old(self)@.files,
            }),
    {
        let resolved = Self::resolve_drop(file);
        match resolved {
            Some(fd) => self.handle_file(fd),
            None => {},
        }
    }

    /// One frame's worth of ingestion: polls the queue once (draining at
    /// most one pending import), then ingests this frame's drop events in
    /// order. The gallery grows exactly by what classification accepts.
    pub fn frame_ingest(&mut self, dropped_files: &Vec<DropEvent>)
        ensures
            final(self)@.files == old(self)@.files + polled_ingested(old(self)@.pending)
                + drops_ingested(drops_view(dropped_files@)),
            final(self)@.pending == (if old(self)@.pending.len() > 0 {
                old(self)@.pending.skip(1)
            } else {
                old(self)@.pending
            }),
    {
        let polled = self.channel.try_receive();
        match polled {
            Some(fd) => self.handle_file(fd),
            None => {},
        }
        proof {
            assert(self@.files =~= old(self)@.files + polled_ingested(old(self)@.pending));
        }
        let ghost mid_files = self@.files;
        let ghost mid_pending = self@.pending;
        let mut i: usize = 0;
        while i < dropped_files.len()
            invariant
                i <= dropped_files.len(),
                self@.pending == mid_pending,
                self@.files == mid_files + drops_ingested(
                    drops_view(dropped_files@.subrange(0, i as int)),
                ),
            decreases dropped_files.len() - i,
        {
            self.handle_drop(&dropped_files[i]);
            proof {
                let ghost pre = drops_view(dropped_files@.subrange(0, i as int));
                assert(drops_view(dropped_files@.subrange(0, i as int + 1)) =~= pre.push(
                    dropped_files@[i as int]@,
                ));
                lemma_drops_ingested_push(pre, dropped_files@[i as int]@);
                assert(self@.files =~= mid_files + drops_ingested(
                    drops_view(dropped_files@.subrange(0, i as int + 1)),
                ));
            }
            i += 1;
        }
        proof {
            assert(dropped_files@.subrange(0, dropped_files@.len() as int) =~= dropped_files@);
        }
    }
}

} // verus!
