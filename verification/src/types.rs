//! What an extraction of embedded objects hands back.

use vstd::prelude::*;

verus! {

/// A non-fatal problem met during extraction.
#[derive(Clone, Debug)]
pub struct ProcessingWarning {
    /// The part of the pipeline that reports the problem.
    pub source: String,
    /// What happened.
    pub message: String,
}

/// A warning as text.
pub struct WarningText {
    pub source: Seq<char>,
    pub message: Seq<char>,
}

impl View for ProcessingWarning {
    type V = WarningText;

    open spec fn view(&self) -> WarningText {
        WarningText { source: self.source@, message: self.message@ }
    }
}

/// The warnings of a list as text.
pub open spec fn warnings_text(list: Seq<ProcessingWarning>) -> Seq<WarningText> {
    list.map_values(|w: ProcessingWarning| w@)
}

/// A document extracted from an entry of an archive.
#[derive(Clone, Debug)]
pub struct ArchiveEntry<D> {
    /// Path of the entry, below the directory that holds the embedded files.
    pub path: String,
    /// MIME type with which the entry was extracted.
    pub mime_type: String,
    /// The extracted document.
    pub result: Box<D>,
}

/// An entry with its path and MIME type as text.
pub struct EntryText<D> {
    pub path: Seq<char>,
    pub mime_type: Seq<char>,
    pub result: D,
}

impl<D> View for ArchiveEntry<D> {
    type V = EntryText<D>;

    open spec fn view(&self) -> EntryText<D> {
        EntryText { path: self.path@, mime_type: self.mime_type@, result: *self.result }
    }
}

/// The entries of a list, with their paths and MIME types as text.
pub open spec fn entries_text<D>(list: Seq<ArchiveEntry<D>>) -> Seq<EntryText<D>> {
    list.map_values(|e: ArchiveEntry<D>| e@)
}

/// Law: lists are read item by item, each item with all that it holds.
pub proof fn law_lists_are_read_item_by_item<D>(
    warnings: Seq<ProcessingWarning>,
    entries: Seq<ArchiveEntry<D>>,
)
    ensures
        warnings_text(warnings).len() == warnings.len(),
        forall|i: int|
            #![trigger warnings[i]]
            0 <= i < warnings.len() ==> warnings_text(warnings)[i].source == warnings[i].source@
                && warnings_text(warnings)[i].message == warnings[i].message@,
        entries_text(entries).len() == entries.len(),
        forall|i: int|
            #![trigger entries[i]]
            0 <= i < entries.len() ==> entries_text(entries)[i].path == entries[i].path@
                && entries_text(entries)[i].mime_type == entries[i].mime_type@
                && entries_text(entries)[i].result == *entries[i].result,
{
}

} // verus!
