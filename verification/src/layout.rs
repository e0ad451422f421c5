//! Where the parts of a log archive lie below the input directory.
//!
//! The input is either a `.logarchive` bundle or a directory that holds
//! exported logs in the layout of a live system.  Both hold the same parts at
//! different places.  A place is given as the names to descend through from
//! the input directory, outermost first; no name means the directory itself.

use vstd::prelude::*;
use vstd::string::*;
use crate::text::{ends_with, has_suffix, texts};

verus! {

/// The two layouts of an input directory.
#[derive(Clone, Copy, Debug, PartialEq, Eq, Structural)]
pub enum ArchiveKind {
    /// A `.logarchive` bundle.
    LogArchive,
    /// Exported logs in the layout of a live system.
    Exported,
}

/// Where the parts of an archive lie.
#[derive(Debug)]
pub struct Layout {
    /// The directory of the string tables of each image.
    pub strings: Vec<String>,
    /// The directory of the string tables of the shared cache.
    pub shared_strings: Vec<String>,
    /// The directory of the time synchronisation records.
    pub timesync: Vec<String>,
    /// The directory that holds the categories of trace files.
    pub traces: Vec<String>,
}

/// The kind of the archive at `path`, told by the end of its name.
pub open spec fn kind_of(path: Seq<char>) -> ArchiveKind {
    if has_suffix(path, ".logarchive"@) {
        ArchiveKind::LogArchive
    } else {
        ArchiveKind::Exported
    }
}

/// The place of the string tables of each image.
pub open spec fn strings_place(kind: ArchiveKind) -> Seq<Seq<char>> {
    match kind {
        ArchiveKind::LogArchive => seq![],
        ArchiveKind::Exported => seq!["uuidtext"@],
    }
}

/// The place of the string tables of the shared cache.
pub open spec fn shared_strings_place(kind: ArchiveKind) -> Seq<Seq<char>> {
    match kind {
        ArchiveKind::LogArchive => seq!["dsc"@],
        ArchiveKind::Exported => seq!["uuidtext"@, "dsc"@],
    }
}

/// The place of the time synchronisation records.
pub open spec fn timesync_place(kind: ArchiveKind) -> Seq<Seq<char>> {
    match kind {
        ArchiveKind::LogArchive => seq!["timesync"@],
        ArchiveKind::Exported => seq!["diagnostics"@, "timesync"@],
    }
}

/// The place of the categories of trace files.
pub open spec fn traces_place(kind: ArchiveKind) -> Seq<Seq<char>> {
    match kind {
        ArchiveKind::LogArchive => seq![],
        ArchiveKind::Exported => seq!["diagnostics"@],
    }
}

/// Tells the kind of the archive at `path`: a bundle if the path ends in
/// `.logarchive`, exported logs otherwise.
pub fn archive_kind(path: &str) -> (kind: ArchiveKind)
    ensures
        kind == kind_of(path@),
{
    if ends_with(path, ".logarchive") {
        ArchiveKind::LogArchive
    } else {
        ArchiveKind::Exported
    }
}

/// Says where the parts of an archive of the given kind lie.
pub fn layout(kind: ArchiveKind) -> (places: Layout)
    ensures
        texts(places.strings@) == strings_place(kind),
        texts(places.shared_strings@) == shared_strings_place(kind),
        texts(places.timesync@) == timesync_place(kind),
        texts(places.traces@) == traces_place(kind),
{
    let mut strings: Vec<String> = Vec::new();
    let mut shared_strings: Vec<String> = Vec::new();
    let mut timesync: Vec<String> = Vec::new();
    let mut traces: Vec<String> = Vec::new();
    match kind {
        ArchiveKind::LogArchive => {
            shared_strings.push(String::from_str("dsc"));
            timesync.push(String::from_str("timesync"));
        },
        ArchiveKind::Exported => {
            strings.push(String::from_str("uuidtext"));
            shared_strings.push(String::from_str("uuidtext"));
            shared_strings.push(String::from_str("dsc"));
            timesync.push(String::from_str("diagnostics"));
            timesync.push(String::from_str("timesync"));
            traces.push(String::from_str("diagnostics"));
        },
    }
    assert(texts(strings@) =~= strings_place(kind));
    assert(texts(shared_strings@) =~= shared_strings_place(kind));
    assert(texts(timesync@) =~= timesync_place(kind));
    assert(texts(traces@) =~= traces_place(kind));
    Layout { strings, shared_strings, timesync, traces }
}

} // verus!
