//! Extraction of objects embedded in OOXML archives.
//!
//! OOXML files are ZIP archives that may carry embedded files in a directory of their own:
//! `word/embeddings/` in a DOCX file, `ppt/embeddings/` in a PPTX file. [`EmbeddedExtraction`]
//! walks those files one by one. It asks its driver for the two things that it cannot decide
//! itself, the MIME type of some bytes and the document in them, and collects the documents and
//! the warnings.

use crate::config::{
    effective_limits, limits_in_force, one_level_down, ExtractionConfig, SecurityLimits,
};
use crate::mime::{choose_mime, guess_from_file_name, mime_for_file_name, usable_mime};
use crate::ole::{
    extract_ole_embedded_object, identified, identify_ole_object, is_ole_binary, ole_magic,
    unwrapped, OleObject, OleText,
};
use crate::package::{
    archive_bytes, capacity_cap, collect_embedding_names, embedded_file_capacity_cap,
    embedding_names, enforce_max_files_in_archive, entry_data, is_archive, open_archive,
    read_embedded_entry_bytes, read_warnings, too_many_warnings, warn, warning_text,
};
use crate::text::{decimal, join, strip_prefix, text_of, texts_of, to_decimal};
use crate::types::{
    entries_text, warnings_text, ArchiveEntry, EntryText, ProcessingWarning, WarningText,
};
use std::io::Cursor;
use vstd::prelude::*;
use vstd::string::StringExecFns;

verus! {

/// What stays the same during one extraction.
pub struct Context {
    /// The archive.
    pub bytes: Seq<u8>,
    /// The directory with the embedded files.
    pub prefix: Seq<char>,
    /// The format that the warnings name.
    pub source_label: Seq<char>,
    /// The bound on the size of one embedded file.
    pub cap: u64,
}

/// What has to be found out about the embedded file at hand.
pub enum PendingText {
    /// Nothing; the next file can be opened.
    Nothing,
    /// The MIME type of the package inside an OLE object.
    PackageMime { filename: Seq<char>, package: Seq<u8> },
    /// The MIME type of a file.
    FileMime { filename: Seq<char>, data: Seq<u8> },
    /// The document in these bytes.
    Document { filename: Seq<char>, data: Seq<u8>, mime: Seq<char>, ole: bool },
}

/// How far an extraction has come.
pub struct Progress<D> {
    /// The entries not opened yet.
    pub todo: Seq<Seq<char>>,
    /// What has to be found out about the entry opened last.
    pub pending: PendingText,
    /// The documents extracted so far.
    pub children: Seq<EntryText<D>>,
    /// The warnings raised so far.
    pub warnings: Seq<WarningText>,
}

/// The name of an entry below the directory `prefix`; the whole name where it is not below it.
pub open spec fn file_label(name: Seq<char>, prefix: Seq<char>) -> Seq<char> {
    if prefix.is_prefix_of(name) {
        name.skip(prefix.len() as int)
    } else {
        name
    }
}

/// The message about archives nested too deeply.
pub open spec fn too_deep_message(skipped: nat, prefix: Seq<char>) -> Seq<char> {
    "Skipped "@ + decimal(skipped) + " embedded object(s) under '"@ + prefix
        + "': max_archive_depth reached"@
}

/// The message about an OLE object that cannot be unwrapped.
pub open spec fn unidentified_message(filename: Seq<char>) -> Seq<char> {
    "Skipped OLE compound file '"@ + filename + "': format identification not supported"@
}

/// The message about a file of unknown MIME type.
pub open spec fn unknown_mime_message(filename: Seq<char>) -> Seq<char> {
    "Skipped embedded file '"@ + filename + "': MIME type could not be determined"@
}

/// The message about a document that cannot be extracted.
pub open spec fn failed_message(filename: Seq<char>, error: Seq<char>, ole: bool) -> Seq<char> {
    (if ole {
        "Failed to extract embedded OLE object '"@
    } else {
        "Failed to extract embedded '"@
    }) + filename + "': "@ + error
}

/// What is left to find out about an OLE object that was unwrapped to `inner`, and the warnings of
/// that.
pub open spec fn ole_step(
    source_label: Seq<char>,
    filename: Seq<char>,
    inner: Option<(Seq<u8>, Seq<char>)>,
) -> (PendingText, Seq<WarningText>) {
    match inner {
        Some((data, mime)) => (
            PendingText::Document { filename, data, mime, ole: true },
            seq![],
        ),
        None => (
            PendingText::Nothing,
            seq![warning_text(source_label, unidentified_message(filename))],
        ),
    }
}

/// What is left to find out about a file whose usable MIME type is `mime`, and the warnings of
/// that.
pub open spec fn regular_step(
    source_label: Seq<char>,
    filename: Seq<char>,
    data: Seq<u8>,
    mime: Option<Seq<char>>,
) -> (PendingText, Seq<WarningText>) {
    match mime {
        Some(mime) => (PendingText::Document { filename, data, mime, ole: false }, seq![]),
        None => (
            PendingText::Nothing,
            seq![warning_text(source_label, unknown_mime_message(filename))],
        ),
    }
}

/// What is left to find out about an entry after it was opened, and the warnings of opening it.
/// Of the package inside an OLE object, and of a file that is no OLE object, the MIME type comes
/// first.
pub open spec fn opened(context: Context, name: Seq<char>) -> (PendingText, Seq<WarningText>) {
    let filename = file_label(name, context.prefix);
    match entry_data(context.bytes, name, context.cap) {
        None => (
            PendingText::Nothing,
            read_warnings(context.bytes, name, filename, context.cap, context.source_label),
        ),
        Some(data) => if ole_magic().is_prefix_of(data) {
            match identified(data) {
                OleText::Package(package) => (
                    PendingText::PackageMime { filename, package },
                    seq![],
                ),
                object => ole_step(context.source_label, filename, unwrapped(object, None)),
            }
        } else {
            (PendingText::FileMime { filename, data }, seq![])
        },
    }
}

/// What is left to find out once content detection named `detected`, and the warnings of that.
/// Of a package only a detected MIME type counts; of a file the one that its name suggests stands
/// in.
pub open spec fn after_detection(
    context: Context,
    pending: PendingText,
    detected: Option<Seq<char>>,
) -> (PendingText, Seq<WarningText>) {
    match pending {
        PendingText::PackageMime { filename, package } => ole_step(
            context.source_label,
            filename,
            unwrapped(OleText::Package(package), detected),
        ),
        PendingText::FileMime { filename, data } => regular_step(
            context.source_label,
            filename,
            data,
            usable_mime(detected, mime_for_file_name(filename)),
        ),
        _ => (pending, seq![]),
    }
}

/// The document of an entry, where its extraction gave one.
pub open spec fn extracted_child<D>(
    pending: PendingText,
    outcome: Result<D, Seq<char>>,
) -> Seq<EntryText<D>> {
    match (pending, outcome) {
        (PendingText::Document { filename, data, mime, ole }, Ok(result)) => seq![
            EntryText { path: filename, mime_type: mime, result },
        ],
        _ => seq![],
    }
}

/// What is to be handed on is not empty and within the cap.
pub open spec fn bounded(pending: PendingText, cap: u64) -> bool {
    match pending {
        PendingText::Nothing => true,
        PendingText::PackageMime { filename, package } => 0 < package.len() <= cap,
        PendingText::FileMime { filename, data } => 0 < data.len() <= cap,
        PendingText::Document { filename, data, mime, ole } => 0 < data.len() <= cap,
    }
}

/// The warning about an entry whose extraction failed.
pub open spec fn extraction_warning<D>(
    source_label: Seq<char>,
    pending: PendingText,
    outcome: Result<D, Seq<char>>,
) -> Seq<WarningText> {
    match (pending, outcome) {
        (PendingText::Document { filename, data, mime, ole }, Err(error)) => seq![
            warning_text(source_label, failed_message(filename, error, ole)),
        ],
        _ => seq![],
    }
}

/// Open entries until there is something to find out about one of them, or none is left.
pub open spec fn settled<D>(context: Context, progress: Progress<D>) -> Progress<D>
    decreases progress.todo.len(),
{
    if progress.pending is Nothing && progress.todo.len() > 0 {
        let (pending, warnings) = opened(context, progress.todo[0]);
        settled(
            context,
            Progress {
                todo: progress.todo.skip(1),
                pending,
                children: progress.children,
                warnings: progress.warnings + warnings,
            },
        )
    } else {
        progress
    }
}

/// The progress after content detection answered.
pub open spec fn after_mime<D>(
    context: Context,
    progress: Progress<D>,
    detected: Option<Seq<char>>,
) -> Progress<D> {
    let (pending, warnings) = after_detection(context, progress.pending, detected);
    settled(
        context,
        Progress {
            todo: progress.todo,
            pending,
            children: progress.children,
            warnings: progress.warnings + warnings,
        },
    )
}

/// The progress after the extraction of a document ended.
pub open spec fn after_document<D>(
    context: Context,
    progress: Progress<D>,
    outcome: Result<D, Seq<char>>,
) -> Progress<D> {
    settled(
        context,
        Progress {
            todo: progress.todo,
            pending: PendingText::Nothing,
            children: progress.children + extracted_child(progress.pending, outcome),
            warnings: progress.warnings + extraction_warning(
                context.source_label,
                progress.pending,
                outcome,
            ),
        },
    )
}

/// The entries that an extraction opens at most: those under the prefix, up to the limit.
pub open spec fn admitted(context: Context, limit: nat) -> Seq<Seq<char>> {
    let found = if is_archive(context.bytes) {
        embedding_names(context.bytes, context.prefix)
    } else {
        seq![]
    };
    if found.len() <= limit {
        found
    } else {
        found.take(limit as int)
    }
}

/// The progress before the first entry is opened. Where no further level of archives may be
/// opened, no entry is, and a warning names how many are left out.
pub open spec fn initial<D>(context: Context, limit: nat, depth: nat) -> Progress<D> {
    let found = if is_archive(context.bytes) {
        embedding_names(context.bytes, context.prefix)
    } else {
        seq![]
    };
    let names = admitted(context, limit);
    let too_many = too_many_warnings(found.len(), limit, context.prefix, context.source_label);
    if found.len() > 0 && depth == 0 {
        Progress {
            todo: seq![],
            pending: PendingText::Nothing,
            children: seq![],
            warnings: too_many + seq![
                warning_text(
                    context.source_label,
                    too_deep_message(names.len(), context.prefix),
                ),
            ],
        }
    } else {
        Progress { todo: names, pending: PendingText::Nothing, children: seq![], warnings: too_many }
    }
}

/// What has to be found out about the embedded file at hand.
#[derive(Debug)]
pub enum Pending {
    /// Nothing; the next file can be opened.
    Nothing,
    /// The MIME type of the package inside an OLE object.
    PackageMime { filename: String, package: Vec<u8> },
    /// The MIME type of a file.
    FileMime { filename: String, data: Vec<u8> },
    /// The document in these bytes.
    Document { filename: String, data: Vec<u8>, mime: String, ole: bool },
}

impl View for Pending {
    type V = PendingText;

    open spec fn view(&self) -> PendingText {
        match *self {
            Pending::Nothing => PendingText::Nothing,
            Pending::PackageMime { filename, package } => PendingText::PackageMime {
                filename: filename@,
                package: package@,
            },
            Pending::FileMime { filename, data } => PendingText::FileMime {
                filename: filename@,
                data: data@,
            },
            Pending::Document { filename, data, mime, ole } => PendingText::Document {
                filename: filename@,
                data: data@,
                mime: mime@,
                ole,
            },
        }
    }
}

/// Read and classify one entry.
///
/// An entry that starts as an OLE compound file is unwrapped; of every other one the MIME type
/// has to be found out first.
pub fn process_embedded_entry(
    archive: &mut zip::ZipArchive<Cursor<&[u8]>>,
    entry_name: &str,
    embeddings_prefix: &str,
    source_label: &str,
    embedded_capacity_cap: u64,
    warnings: &mut Vec<ProcessingWarning>,
) -> (r: Pending)
    ensures
        archive_bytes(*final(archive)) == archive_bytes(*old(archive)),
        ({
            let context = Context {
                bytes: archive_bytes(*old(archive)),
                prefix: embeddings_prefix@,
                source_label: source_label@,
                cap: embedded_capacity_cap,
            };
            &&& r@ == opened(context, entry_name@).0
            &&& bounded(r@, embedded_capacity_cap)
            &&& warnings_text(final(warnings)@) == warnings_text(old(warnings)@) + opened(
                context,
                entry_name@,
            ).1
        }),
{
    proof {
        assert(warnings_text(warnings@) == warnings_text(warnings@) + seq![]);
    }
    let filename: String = match strip_prefix(entry_name, embeddings_prefix) {
        Some(rest) => {
            proof {
                assert(entry_name@.skip(embeddings_prefix@.len() as int) == rest@);
            }
            rest.to_string()
        },
        None => entry_name.to_string(),
    };
    let data: Vec<u8> = match read_embedded_entry_bytes(
        archive,
        entry_name,
        filename.as_str(),
        embedded_capacity_cap,
        source_label,
        warnings,
    ) {
        Some(data) => data,
        None => return Pending::Nothing,
    };
    proof {
        assert(warnings_text(warnings@) == warnings_text(old(warnings)@));
    }
    if !is_ole_binary(data.as_slice()) {
        return Pending::FileMime { filename, data };
    }
    match identify_ole_object(data.as_slice()) {
        OleObject::Package(package) => Pending::PackageMime { filename, package },
        object => prepare_ole_entry(
            extract_ole_embedded_object(object, None),
            filename,
            source_label,
            warnings,
        ),
    }
}

/// The characters and bytes of an unwrapped OLE object.
pub open spec fn inner_text(inner: Option<(Vec<u8>, String)>) -> Option<(Seq<u8>, Seq<char>)> {
    match inner {
        Some((data, mime)) => Some((data@, mime@)),
        None => None,
    }
}

/// Go on with an OLE object that was unwrapped to `inner`: have its document extracted, or warn
/// that it cannot be identified.
pub fn prepare_ole_entry(
    inner: Option<(Vec<u8>, String)>,
    filename: String,
    source_label: &str,
    warnings: &mut Vec<ProcessingWarning>,
) -> (r: Pending)
    ensures
        r@ == ole_step(source_label@, filename@, inner_text(inner)).0,
        warnings_text(final(warnings)@) == warnings_text(old(warnings)@) + ole_step(
            source_label@,
            filename@,
            inner_text(inner),
        ).1,
{
    proof {
        assert(warnings_text(warnings@) == warnings_text(warnings@) + seq![]);
    }
    match inner {
        Some((data, mime)) => Pending::Document { filename, data, mime, ole: true },
        None => {
            let mut message: String = join("Skipped OLE compound file '", filename.as_str());
            message.append("': format identification not supported");
            warn(warnings, source_label, message);
            Pending::Nothing
        },
    }
}

/// Go on with a file that is no OLE object once content detection named `detected`: have its
/// document extracted as the detected type or the one that its name suggests, or warn that the
/// type is unknown.
pub fn prepare_regular_entry(
    detected: Option<String>,
    data: Vec<u8>,
    filename: String,
    source_label: &str,
    warnings: &mut Vec<ProcessingWarning>,
) -> (r: Pending)
    ensures
        ({
            let step = regular_step(
                source_label@,
                filename@,
                data@,
                usable_mime(text_of(detected), mime_for_file_name(filename@)),
            );
            &&& r@ == step.0
            &&& warnings_text(final(warnings)@) == warnings_text(old(warnings)@) + step.1
        }),
{
    proof {
        assert(warnings_text(warnings@) == warnings_text(warnings@) + seq![]);
    }
    let guessed: Option<String> = if detected.is_some() {
        None
    } else {
        guess_from_file_name(filename.as_str())
    };
    match choose_mime(detected, guessed) {
        Some(mime) => Pending::Document { filename, data, mime, ole: false },
        None => {
            let mut message: String = join("Skipped embedded file '", filename.as_str());
            message.append("': MIME type could not be determined");
            warn(warnings, source_label, message);
            Pending::Nothing
        },
    }
}

/// The outcome of an extraction, its failure as text.
pub open spec fn document_text<D>(outcome: Result<D, String>) -> Result<D, Seq<char>> {
    match outcome {
        Ok(result) => Ok(result),
        Err(error) => Err(error@),
    }
}

/// Close an entry whose extraction ended: keep its document, or warn that there is none.
pub fn finish_entry<D>(
    pending: Pending,
    outcome: Result<D, String>,
    source_label: &str,
    children: &mut Vec<ArchiveEntry<D>>,
    warnings: &mut Vec<ProcessingWarning>,
)
    ensures
        entries_text(final(children)@) == entries_text(old(children)@) + extracted_child(
            pending@,
            document_text(outcome),
        ),
        warnings_text(final(warnings)@) == warnings_text(old(warnings)@) + extraction_warning(
            source_label@,
            pending@,
            document_text(outcome),
        ),
{
    proof {
        assert(warnings_text(warnings@) == warnings_text(warnings@) + seq![]);
        assert(entries_text(children@) == entries_text(children@) + seq![]);
    }
    if let Pending::Document { filename, data: _, mime, ole } = pending {
        match outcome {
            Ok(result) => {
                children.push(
                    ArchiveEntry { path: filename, mime_type: mime, result: Box::new(result) },
                );
                proof {
                    assert(entries_text(children@) == entries_text(old(children)@)
                        + extracted_child(pending@, document_text(outcome)));
                }
            },
            Err(error) => {
                let mut message: String = if ole {
                    join("Failed to extract embedded OLE object '", filename.as_str())
                } else {
                    join("Failed to extract embedded '", filename.as_str())
                };
                message.append("': ");
                message.append(error.as_str());
                warn(warnings, source_label, message);
            },
        }
    }
}

/// What an extraction asks of its driver.
#[derive(Debug)]
pub enum Request<'b, O, R> {
    /// Detect the MIME type of these bytes from their content.
    DetectMime(&'b [u8]),
    /// Extract the document in these bytes, as this MIME type, under this configuration.
    ExtractDocument { data: &'b [u8], mime_type: &'b str, config: &'b ExtractionConfig<O, R> },
    /// Nothing; the extraction is over.
    Finished,
}

/// An extraction of embedded objects under way.
///
/// Its driver calls [`EmbeddedExtraction::request`], does what is asked, reports back with
/// [`EmbeddedExtraction::mime_detected`] or [`EmbeddedExtraction::document_extracted`], and goes
/// on until the request is [`Request::Finished`].
pub struct EmbeddedExtraction<'a, O, R, D> {
    zip_bytes: &'a [u8],
    archive: Option<zip::ZipArchive<Cursor<&'a [u8]>>>,
    embeddings_prefix: &'a str,
    source_label: &'a str,
    embedded_capacity_cap: u64,
    child_config: ExtractionConfig<O, R>,
    names: Vec<String>,
    position: usize,
    pending: Pending,
    children: Vec<ArchiveEntry<D>>,
    warnings: Vec<ProcessingWarning>,
}

impl<'a, O, R, D> EmbeddedExtraction<'a, O, R, D> {
    /// What stays the same during this extraction.
    pub closed spec fn context(&self) -> Context {
        Context {
            bytes: self.zip_bytes@,
            prefix: self.embeddings_prefix@,
            source_label: self.source_label@,
            cap: self.embedded_capacity_cap,
        }
    }

    /// How far this extraction has come.
    pub closed spec fn progress(&self) -> Progress<D> {
        Progress {
            todo: texts_of(self.names@).skip(self.position as int),
            pending: self.pending@,
            children: entries_text(self.children@),
            warnings: warnings_text(self.warnings@),
        }
    }

    /// The configuration under which embedded files are extracted.
    pub closed spec fn child_config(&self) -> ExtractionConfig<O, R> {
        self.child_config
    }

    /// The archive is the one that was given, there is one as long as entries are left, what is to
    /// be handed on is within the cap, and the next entry is opened as soon as nothing is pending.
    pub closed spec fn well_formed(&self) -> bool {
        &&& self.consistent()
        &&& self.progress().pending is Nothing ==> self.progress().todo.len() == 0
    }

    closed spec fn consistent(&self) -> bool {
        &&& self.position <= self.names@.len()
        &&& self.names@.len() > 0 ==> self.archive is Some
        &&& bounded(self.pending@, self.embedded_capacity_cap)
        &&& self.archive matches Some(archive) ==> archive_bytes(archive) == self.zip_bytes@
    }

    /// Start to extract the embedded objects of the archive `zip_bytes`.
    ///
    /// The entries under `embeddings_prefix` are looked up and held to the limits; nothing is left
    /// to do where the bytes are no archive or no entry is there. `default_limits` are in force
    /// where the configuration sets none.
    pub fn start(
        zip_bytes: &'a [u8],
        embeddings_prefix: &'a str,
        source_label: &'a str,
        config: &ExtractionConfig<O, R>,
        default_limits: SecurityLimits,
    ) -> (r: Self) where O: Clone, R: Clone
        ensures
            r.well_formed(),
            r.context() == (Context {
                bytes: zip_bytes@,
                prefix: embeddings_prefix@,
                source_label: source_label@,
                cap: capacity_cap(*config, limits_in_force(*config, default_limits)),
            }),
            r.progress() == settled(
                r.context(),
                initial::<D>(
                    r.context(),
                    limits_in_force(*config, default_limits).max_files_in_archive as nat,
                    config.max_archive_depth as nat,
                ),
            ),
            one_level_down(*config, r.child_config()),
            config.max_archive_depth > 0 ==> r.child_config().max_archive_depth + 1
                == config.max_archive_depth,
            r.child_config().include_document_structure == config.include_document_structure,
            r.child_config().jupyter_cell_rendering == config.jupyter_cell_rendering,
            r.child_config().max_embedded_file_bytes == config.max_embedded_file_bytes,
            r.child_config().security_limits == config.security_limits,
            cloned(config.output_format, r.child_config().output_format),
            cloned(config.rest, r.child_config().rest),
            config.max_embedded_file_bytes matches Some(bytes) ==> r.context().cap == bytes,
    {
        let limits: SecurityLimits = effective_limits(config, default_limits);
        let mut archive: Option<zip::ZipArchive<Cursor<&'a [u8]>>> = open_archive(zip_bytes);
        let mut names: Vec<String> = Vec::new();
        let mut warnings: Vec<ProcessingWarning> = Vec::new();
        let ghost found = if is_archive(zip_bytes@) {
            embedding_names(zip_bytes@, embeddings_prefix@)
        } else {
            seq![]
        };
        if let Some(opened_archive) = &mut archive {
            names = collect_embedding_names(opened_archive, embeddings_prefix);
        }
        proof {
            assert(texts_of(names@) == found);
            assert(texts_of(names@).len() == names@.len());
            assert(warnings_text(warnings@) == Seq::<WarningText>::empty());
        }
        if names.len() > 0 {
            enforce_max_files_in_archive(
                &mut names,
                limits.max_files_in_archive,
                embeddings_prefix,
                source_label,
                &mut warnings,
            );
            if config.max_archive_depth == 0 {
                let mut message: String = join("Skipped ", to_decimal(names.len() as u64).as_str());
                message.append(" embedded object(s) under '");
                message.append(embeddings_prefix);
                message.append("': max_archive_depth reached");
                warn(&mut warnings, source_label, message);
                names = Vec::new();
            }
        }
        let mut extraction: Self = EmbeddedExtraction {
            zip_bytes,
            archive,
            embeddings_prefix,
            source_label,
            embedded_capacity_cap: embedded_file_capacity_cap(config, &limits),
            child_config: config.child(),
            names,
            position: 0,
            pending: Pending::Nothing,
            children: Vec::new(),
            warnings,
        };
        proof {
            let limit = limits.max_files_in_archive as nat;
            let start = initial::<D>(
                extraction.context(),
                limit,
                config.max_archive_depth as nat,
            );
            assert(texts_of(extraction.names@).skip(0) == start.todo);
            assert(entries_text(extraction.children@) == start.children);
            assert(warnings_text(extraction.warnings@) == start.warnings);
        }
        extraction.advance();
        extraction
    }

    /// Open entries until there is something to find out about one of them, or none is left.
    fn advance(&mut self)
        requires
            old(self).consistent(),
        ensures
            final(self).well_formed(),
            final(self).context() == old(self).context(),
            final(self).child_config() == old(self).child_config(),
            final(self).progress() == settled(old(self).context(), old(self).progress()),
    {
        let ghost context = self.context();
        let ghost goal = settled(context, self.progress());
        while self.nothing_pending() && self.position < self.names.len()
            invariant
                self.consistent(),
                self.context() == context,
                self.child_config() == old(self).child_config(),
                settled(context, self.progress()) == goal,
            decreases self.names.len() - self.position,
        {
            let ghost before = self.progress();
            if let Some(archive) = &mut self.archive {
                self.pending = process_embedded_entry(
                    archive,
                    self.names[self.position].as_str(),
                    self.embeddings_prefix,
                    self.source_label,
                    self.embedded_capacity_cap,
                    &mut self.warnings,
                );
            }
            self.position += 1;
            proof {
                assert(before.todo[0] == self.names@[self.position - 1]@);
                assert(before.todo.skip(1) == texts_of(self.names@).skip(self.position as int));
            }
        }
    }

    fn nothing_pending(&self) -> (r: bool)
        ensures
            r == (self.progress().pending is Nothing),
    {
        match &self.pending {
            Pending::Nothing => true,
            _ => false,
        }
    }

    /// What this extraction asks of its driver now.
    pub fn request(&self) -> (r: Request<'_, O, R>)
        requires
            self.well_formed(),
        ensures
            match self.progress().pending {
                PendingText::Nothing => r is Finished && self.progress().todo.len() == 0,
                PendingText::PackageMime { filename, package } => r matches Request::DetectMime(
                    data,
                ) && data@ == package,
                PendingText::FileMime { filename, data: bytes } => r matches Request::DetectMime(
                    data,
                ) && data@ == bytes,
                PendingText::Document { filename, data: bytes, mime, ole } => r matches
                    Request::ExtractDocument { data, mime_type, config } && data@ == bytes
                    && mime_type@ == mime && *config == self.child_config(),
            },
            bounded(self.progress().pending, self.context().cap),
    {
        match &self.pending {
            Pending::Nothing => Request::Finished,
            Pending::PackageMime { filename: _, package } => Request::DetectMime(
                package.as_slice(),
            ),
            Pending::FileMime { filename: _, data } => Request::DetectMime(data.as_slice()),
            Pending::Document { filename: _, data, mime, ole: _ } => Request::ExtractDocument {
                data: data.as_slice(),
                mime_type: mime.as_str(),
                config: &self.child_config,
            },
        }
    }

    /// Report what content detection found for [`Request::DetectMime`]; `None` where it failed.
    pub fn mime_detected(&mut self, detected: Option<String>)
        requires
            old(self).well_formed(),
            old(self).progress().pending is PackageMime || old(self).progress().pending is FileMime,
        ensures
            final(self).well_formed(),
            final(self).context() == old(self).context(),
            final(self).child_config() == old(self).child_config(),
            final(self).progress() == after_mime(
                old(self).context(),
                old(self).progress(),
                text_of(detected),
            ),
    {
        let mut pending: Pending = Pending::Nothing;
        std::mem::swap(&mut pending, &mut self.pending);
        match pending {
            Pending::PackageMime { filename, package } => {
                self.pending = prepare_ole_entry(
                    extract_ole_embedded_object(OleObject::Package(package), detected),
                    filename,
                    self.source_label,
                    &mut self.warnings,
                );
            },
            Pending::FileMime { filename, data } => {
                self.pending = prepare_regular_entry(
                    detected,
                    data,
                    filename,
                    self.source_label,
                    &mut self.warnings,
                );
            },
            _ => {},
        }
        self.advance();
    }

    /// Report the document extracted for [`Request::ExtractDocument`], or why there is none.
    pub fn document_extracted(&mut self, outcome: Result<D, String>)
        requires
            old(self).well_formed(),
            old(self).progress().pending is Document,
        ensures
            final(self).well_formed(),
            final(self).context() == old(self).context(),
            final(self).child_config() == old(self).child_config(),
            final(self).progress() == after_document(
                old(self).context(),
                old(self).progress(),
                document_text(outcome),
            ),
    {
        let mut pending: Pending = Pending::Nothing;
        std::mem::swap(&mut pending, &mut self.pending);
        finish_entry(
            pending,
            outcome,
            self.source_label,
            &mut self.children,
            &mut self.warnings,
        );
        self.advance();
    }

    /// The documents and warnings collected.
    pub fn into_results(self) -> (r: (Vec<ArchiveEntry<D>>, Vec<ProcessingWarning>))
        ensures
            entries_text(r.0@) == self.progress().children,
            warnings_text(r.1@) == self.progress().warnings,
    {
        (self.children, self.warnings)
    }
}

/// Law: an entry below the prefix goes by what follows the prefix, and any other by its whole name.
pub proof fn law_label_is_what_follows_the_prefix(
    prefix: Seq<char>,
    rest: Seq<char>,
    name: Seq<char>,
)
    ensures
        file_label(prefix + rest, prefix) == rest,
        !prefix.is_prefix_of(name) ==> file_label(name, prefix) == name,
{
    assert(prefix.is_prefix_of(prefix + rest));
    assert((prefix + rest).skip(prefix.len() as int) == rest);
}

/// Law: what an extraction starts from. Of the entries under the prefix, in the order of the archive,
/// those up to the limit are to be opened, with a warning that counts the others; where no further
/// level may be opened none is, and a second warning counts those that would have been. Without an
/// archive or an entry there is nothing to open and nothing to say.
pub proof fn law_extraction_starts_within_its_limits<D>(
    context: Context,
    limit: nat,
    depth: nat,
    found: Seq<Seq<char>>,
)
    requires
        is_archive(context.bytes) ==> found == embedding_names(context.bytes, context.prefix),
        !is_archive(context.bytes) ==> found.len() == 0,
    ensures
        ({
            let start = initial::<D>(context, limit, depth);
            let source = context.source_label + "_embedded_objects"@;
            let opened = if found.len() < limit {
                found.len()
            } else {
                limit
            };
            let over = WarningText {
                source,
                message: "Skipped "@ + decimal((found.len() - limit) as nat)
                    + " embedded object(s) under '"@ + context.prefix
                    + "': max_files_in_archive ("@ + decimal(limit) + ") reached"@,
            };
            let deep = WarningText {
                source,
                message: "Skipped "@ + decimal(opened) + " embedded object(s) under '"@
                    + context.prefix + "': max_archive_depth reached"@,
            };
            &&& start.pending is Nothing
            &&& start.children.len() == 0
            &&& depth > 0 ==> start.todo == found.take(opened as int)
            &&& depth == 0 ==> start.todo.len() == 0
            &&& found.len() == 0 ==> start.warnings.len() == 0
            &&& depth > 0 && found.len() <= limit ==> start.warnings.len() == 0
            &&& depth > 0 && found.len() > limit ==> start.warnings == seq![over]
            &&& depth == 0 && 0 < found.len() <= limit ==> start.warnings == seq![deep]
            &&& depth == 0 && found.len() > limit ==> start.warnings == seq![over, deep]
        }),
{
    let start = initial::<D>(context, limit, depth);
    if !is_archive(context.bytes) {
        assert(found == Seq::<Seq<char>>::empty());
    }
    assert(found.len() <= limit ==> found.take(found.len() as int) == found);
    if depth == 0 && found.len() > 0 {
        assert(start.warnings =~= if found.len() > limit {
            seq![start.warnings[0], start.warnings[1]]
        } else {
            seq![start.warnings[0]]
        });
    }
}

/// Law: the entry at hand ends with its document or with a warning that says why there is none, and
/// what was collected before it stays.
pub proof fn law_entry_ends_with_its_document<D>(
    context: Context,
    progress: Progress<D>,
    filename: Seq<char>,
    data: Seq<u8>,
    mime: Seq<char>,
    ole: bool,
    result: D,
    error: Seq<char>,
)
    requires
        progress.todo.len() == 0,
        progress.pending == (PendingText::Document { filename, data, mime, ole }),
    ensures
        ({
            let done = after_document(context, progress, Ok(result));
            &&& done.children == progress.children.push(
                EntryText { path: filename, mime_type: mime, result },
            )
            &&& done.warnings == progress.warnings
            &&& done.pending is Nothing && done.todo.len() == 0
        }),
        ({
            let done = after_document(context, progress, Err(error));
            &&& done.children == progress.children
            &&& done.warnings == progress.warnings.push(
                WarningText {
                    source: context.source_label + "_embedded_objects"@,
                    message: if ole {
                        "Failed to extract embedded OLE object '"@ + filename + "': "@ + error
                    } else {
                        "Failed to extract embedded '"@ + filename + "': "@ + error
                    },
                },
            )
            &&& done.pending is Nothing && done.todo.len() == 0
        }),
{
    let done = after_document(context, progress, Ok(result));
    assert(done.children =~= progress.children.push(
        EntryText { path: filename, mime_type: mime, result },
    ));
    assert(done.warnings =~= progress.warnings);
    let failed = after_document(context, progress, Err(error));
    assert(failed.children =~= progress.children);
    assert(failed.warnings.drop_last() =~= progress.warnings);
    assert(failed.warnings =~= progress.warnings.push(failed.warnings.last()));
}

/// Law: once its MIME type is known, the very bytes asked about are to be extracted under the very
/// name, and nothing that was collected changes.
pub proof fn law_detection_leads_to_the_document<D>(
    context: Context,
    progress: Progress<D>,
    filename: Seq<char>,
    bytes: Seq<u8>,
    mime: Seq<char>,
)
    ensures
        progress.pending == (PendingText::PackageMime { filename, package: bytes }) ==> after_mime(
            context,
            progress,
            Some(mime),
        ) == (Progress {
            pending: PendingText::Document { filename, data: bytes, mime, ole: true },
            ..progress
        }),
        progress.pending == (PendingText::FileMime { filename, data: bytes }) && mime
            != "application/octet-stream"@ ==> after_mime(context, progress, Some(mime)) == (
        Progress {
            pending: PendingText::Document { filename, data: bytes, mime, ole: false },
            ..progress
        }),
{
    assert(progress.warnings + Seq::<WarningText>::empty() == progress.warnings);
}

/// Law: what is pending is read as it stands.
pub proof fn law_pending_is_read_as_it_stands(pending: Pending)
    ensures
        match pending {
            Pending::Nothing => pending@ is Nothing,
            Pending::PackageMime { filename, package } => pending@ == (PendingText::PackageMime {
                filename: filename@,
                package: package@,
            }),
            Pending::FileMime { filename, data } => pending@ == (PendingText::FileMime {
                filename: filename@,
                data: data@,
            }),
            Pending::Document { filename, data, mime, ole } => pending@ == (PendingText::Document {
                filename: filename@,
                data: data@,
                mime: mime@,
                ole,
            }),
        },
{
}

/// Law: what a driver reports is read as it is, and so is an unwrapped object.
pub proof fn law_reports_are_read_as_they_are<D>(
    result: D,
    error: String,
    data: Vec<u8>,
    mime: String,
)
    ensures
        document_text::<D>(Ok(result)) == Ok::<_, Seq<char>>(result),
        document_text::<D>(Err(error)) == Err::<D, _>(error@),
        inner_text(Some((data, mime))) == Some((data@, mime@)),
        inner_text(None) is None,
{
}

} // verus!
