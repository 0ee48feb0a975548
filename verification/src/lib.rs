//! Verified core of a media-organizing desktop shell.
//!
//! The load-bearing pieces of the shell are here: classification of an
//! incoming file by extension, declared MIME type and content sniffing
//! (`filters`), the ordered queue that carries picked files from the
//! asynchronous dialog task to the per-frame update (`ingest`), the Files
//! pane state with its append-only gallery list (`files`), and the fixed
//! pane layout vocabulary (`tiles`). The windowing toolkit around it is
//! unverified and lives outside this crate.

pub mod files;
pub mod filters;
pub mod ingest;
pub mod text;
pub mod tiles;
