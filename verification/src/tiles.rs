//! The fixed pane vocabulary of the tiling shell: the closed set of pane
//! kinds and the state behind them. The layout tree itself — splits,
//! shares, tab bars — is toolkit composition and stays outside the crate.

use vstd::prelude::*;
use crate::files::{FileDataView, Files, FileView};

verus! {

/// The closed set of panes the shell arranges; no open extensibility is
/// wanted, so dispatch is an exhaustive match.
#[derive(Debug, Clone, Copy, PartialEq, Eq, Structural)]
pub enum Pane {
    Files,
    Timeline,
    Video,
}

/// The timeline pane; it holds no state yet.
pub struct Timeline {}

/// The video pane; it holds no state yet.
pub struct Video {}

/// The state behind the three panes.
pub struct TreeBehavior {
    pub files: Files,
    pub timeline: Timeline,
    pub video: Video,
}

impl Default for TreeBehavior {
    /// Fresh pane state: an empty Files pane beside the stateless panes.
    fn default() -> (r: Self)
        ensures
            r.files@.files == Seq::<FileView>::empty(),
            r.files@.pending == Seq::<FileDataView>::empty(),
    {
        TreeBehavior { files: Files::default(), timeline: Timeline {  }, video: Video {  } }
    }
}

impl TreeBehavior {
    /// The tab title shown for a pane.
    pub fn tab_title_for_pane(&self, pane: &Pane) -> (r: &'static str)
        ensures
            pane is Files ==> r@ == "Files"@,
            pane is Timeline ==> r@ == "Timeline"@,
            pane is Video ==> r@ == "Video"@,
    {
        match pane {
            Pane::Files => "Files",
            Pane::Timeline => "Timeline",
            Pane::Video => "Video",
        }
    }
}

} // verus!
