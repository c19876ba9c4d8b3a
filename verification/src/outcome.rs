//! What an extraction of embedded objects comes to, entry by entry.
//!
//! The driver of an extraction answers two kinds of questions. Take its answers as two functions,
//! `detect` for content detection and `extract` for the extraction of a document. The laws here
//! say that the collected documents and warnings are then those of the single entries, put one
//! after the other in the order of the archive.

use crate::embedded::{
    admitted, after_detection, after_document, after_mime, extracted_child, extraction_warning,
    file_label, initial, law_label_is_what_follows_the_prefix, opened, settled, Context,
    PendingText, Progress,
};
use crate::mime::{extension, mime_for_extension};
use crate::ole::{has_object, is_compound, ole_magic, stream_data};
use crate::package::{
    declared_size, embedding_names, entry_count, entry_data, entry_name_at, entry_read, is_archive,
    under_prefix, warning_source,
};
use crate::text::decimal;
use crate::types::{EntryText, WarningText};
use vstd::prelude::*;

verus! {

/// Content detection: from bytes to a MIME type, where it finds one.
pub type Detect = spec_fn(Seq<u8>) -> Option<Seq<char>>;

/// Extraction: from bytes and their MIME type to a document, or to the reason why there is none.
pub type Extract<D> = spec_fn(Seq<u8>, Seq<char>) -> Result<D, Seq<char>>;

/// Documents and warnings.
pub struct Outcome<D> {
    pub children: Seq<EntryText<D>>,
    pub warnings: Seq<WarningText>,
}

/// One outcome after the other.
pub open spec fn followed_by<D>(first: Outcome<D>, second: Outcome<D>) -> Outcome<D> {
    Outcome {
        children: first.children + second.children,
        warnings: first.warnings + second.warnings,
    }
}

/// What comes of a document that is to be extracted.
pub open spec fn document_outcome<D>(
    context: Context,
    pending: PendingText,
    extract: Extract<D>,
) -> Outcome<D> {
    match pending {
        PendingText::Document { filename, data, mime, ole } => Outcome {
            children: extracted_child(pending, extract(data, mime)),
            warnings: extraction_warning(context.source_label, pending, extract(data, mime)),
        },
        _ => Outcome { children: seq![], warnings: seq![] },
    }
}

/// What content detection says of the bytes that it is asked about.
pub open spec fn detection(pending: PendingText, detect: Detect) -> Option<Seq<char>> {
    match pending {
        PendingText::PackageMime { filename, package } => detect(package),
        PendingText::FileMime { filename, data } => detect(data),
        _ => None,
    }
}

/// What comes of an entry about which something is still to be found out.
pub open spec fn pending_outcome<D>(
    context: Context,
    pending: PendingText,
    detect: Detect,
    extract: Extract<D>,
) -> Outcome<D> {
    let (next, warnings) = after_detection(context, pending, detection(pending, detect));
    followed_by(
        Outcome { children: seq![], warnings },
        document_outcome(context, next, extract),
    )
}

/// What comes of one entry.
pub open spec fn entry_outcome<D>(
    context: Context,
    name: Seq<char>,
    detect: Detect,
    extract: Extract<D>,
) -> Outcome<D> {
    let (pending, warnings) = opened(context, name);
    followed_by(
        Outcome { children: seq![], warnings },
        pending_outcome(context, pending, detect, extract),
    )
}

/// What comes of a list of entries: the outcome of each, in order.
pub open spec fn entries_outcome<D>(
    context: Context,
    names: Seq<Seq<char>>,
    detect: Detect,
    extract: Extract<D>,
) -> Outcome<D>
    decreases names.len(),
{
    if names.len() == 0 {
        Outcome { children: seq![], warnings: seq![] }
    } else {
        followed_by(
            entry_outcome(context, names[0], detect, extract),
            entries_outcome(context, names.skip(1), detect, extract),
        )
    }
}

/// What an extraction comes to from here on, together with what it has collected.
pub open spec fn expected<D>(
    context: Context,
    progress: Progress<D>,
    detect: Detect,
    extract: Extract<D>,
) -> Outcome<D> {
    followed_by(
        Outcome { children: progress.children, warnings: progress.warnings },
        followed_by(
            pending_outcome(context, progress.pending, detect, extract),
            entries_outcome(context, progress.todo, detect, extract),
        ),
    )
}

/// Law: opening entries changes nothing about what an extraction comes to.
pub proof fn law_opening_keeps_the_outcome<D>(
    context: Context,
    progress: Progress<D>,
    detect: Detect,
    extract: Extract<D>,
)
    ensures
        expected(context, settled(context, progress), detect, extract) == expected(
            context,
            progress,
            detect,
            extract,
        ),
    decreases progress.todo.len(),
{
    if progress.pending is Nothing && progress.todo.len() > 0 {
        let (pending, warnings) = opened(context, progress.todo[0]);
        let next = Progress {
            todo: progress.todo.skip(1),
            pending,
            children: progress.children,
            warnings: progress.warnings + warnings,
        };
        law_opening_keeps_the_outcome(context, next, detect, extract);
        let a = expected(context, next, detect, extract);
        let b = expected(context, progress, detect, extract);
        assert(a.children =~= b.children);
        assert(a.warnings =~= b.warnings);
    }
}

/// Law: an answer of content detection changes nothing about what an extraction comes to.
pub proof fn law_detection_keeps_the_outcome<D>(
    context: Context,
    progress: Progress<D>,
    detect: Detect,
    extract: Extract<D>,
)
    requires
        progress.pending is PackageMime || progress.pending is FileMime,
    ensures
        expected(
            context,
            after_mime(context, progress, detection(progress.pending, detect)),
            detect,
            extract,
        ) == expected(context, progress, detect, extract),
{
    let (pending, warnings) = after_detection(
        context,
        progress.pending,
        detection(progress.pending, detect),
    );
    let next = Progress {
        todo: progress.todo,
        pending,
        children: progress.children,
        warnings: progress.warnings + warnings,
    };
    law_opening_keeps_the_outcome(context, next, detect, extract);
    let a = expected(context, next, detect, extract);
    let b = expected(context, progress, detect, extract);
    assert(a.children =~= b.children);
    assert(a.warnings =~= b.warnings);
}

/// Law: the end of the extraction of a document changes nothing about what an extraction comes
/// to.
pub proof fn law_extraction_keeps_the_outcome<D>(
    context: Context,
    progress: Progress<D>,
    detect: Detect,
    extract: Extract<D>,
)
    requires
        progress.pending is Document,
    ensures
        expected(
            context,
            after_document(
                context,
                progress,
                extract(progress.pending->Document_data, progress.pending->mime),
            ),
            detect,
            extract,
        ) == expected(context, progress, detect, extract),
{
    let outcome = extract(progress.pending->Document_data, progress.pending->mime);
    let next = Progress {
        todo: progress.todo,
        pending: PendingText::Nothing,
        children: progress.children + extracted_child(progress.pending, outcome),
        warnings: progress.warnings + extraction_warning(
            context.source_label,
            progress.pending,
            outcome,
        ),
    };
    law_opening_keeps_the_outcome(context, next, detect, extract);
    let a = expected(context, next, detect, extract);
    let b = expected(context, progress, detect, extract);
    assert(a.children =~= b.children);
    assert(a.warnings =~= b.warnings);
}

/// Law: once nothing is left, what was collected is what the extraction comes to.
pub proof fn law_finished_is_the_outcome<D>(
    context: Context,
    progress: Progress<D>,
    detect: Detect,
    extract: Extract<D>,
)
    requires
        progress.pending is Nothing,
        progress.todo.len() == 0,
    ensures
        progress.children == expected(context, progress, detect, extract).children,
        progress.warnings == expected(context, progress, detect, extract).warnings,
{
}

/// Law: from the start on, an extraction comes to the warnings about the limits, followed by the
/// outcome of each entry that is opened. Where no further level of archives may be opened, that
/// is no entry at all.
pub proof fn law_start_promises_the_entries<D>(
    context: Context,
    limit: nat,
    depth: nat,
    detect: Detect,
    extract: Extract<D>,
)
    ensures
        ({
            let start = initial::<D>(context, limit, depth);
            let end = expected(context, settled(context, start), detect, extract);
            let names = if depth == 0 {
                seq![]
            } else {
                admitted(context, limit)
            };
            let outcome = entries_outcome(context, names, detect, extract);
            &&& end.children == outcome.children
            &&& end.warnings == start.warnings + outcome.warnings
        }),
{
    let start = initial::<D>(context, limit, depth);
    law_opening_keeps_the_outcome(context, start, detect, extract);
    let end = expected(context, start, detect, extract);
    let names = if depth == 0 {
        seq![]
    } else {
        admitted(context, limit)
    };
    assert(start.todo =~= names);
    let outcome = entries_outcome(context, names, detect, extract);
    assert(end.children =~= outcome.children);
    assert(end.warnings =~= start.warnings + outcome.warnings);
}

/// Law: an entry gives a document or a warning or neither, never both and never two. A document
/// stands under the name of the entry below the prefix.
pub proof fn law_entry_gives_one_thing<D>(
    context: Context,
    name: Seq<char>,
    detect: Detect,
    extract: Extract<D>,
)
    ensures
        ({
            let outcome = entry_outcome(context, name, detect, extract);
            &&& outcome.children.len() + outcome.warnings.len() <= 1
            &&& forall|i: int|
                0 <= i < outcome.children.len() ==> (#[trigger] outcome.children[i]).path
                    == file_label(name, context.prefix)
        }),
{
}

/// Law: an entry whose data was read is never dropped silently: it gives a document, or a warning
/// says why there is none.
pub proof fn law_read_entry_is_accounted_for<D>(
    context: Context,
    name: Seq<char>,
    detect: Detect,
    extract: Extract<D>,
)
    requires
        entry_data(context.bytes, name, context.cap) is Some,
    ensures
        ({
            let outcome = entry_outcome(context, name, detect, extract);
            outcome.children.len() + outcome.warnings.len() == 1
        }),
{
}

/// Law: what an entry hands on is not empty, and the data taken from the archive is within the
/// cap whatever size the archive declares for it. That a package inside it is within the cap too
/// comes from reading it, and is stated where it is read.
pub proof fn law_opened_data_is_bounded(context: Context, name: Seq<char>)
    ensures
        match opened(context, name).0 {
            PendingText::Nothing => true,
            PendingText::PackageMime { filename, package } => package.len() > 0,
            PendingText::FileMime { filename, data } => 0 < data.len() <= context.cap,
            PendingText::Document { filename, data, mime, ole } => 0 < data.len() <= context.cap,
        },
{
}

/// Law: there are never more documents than entries, so the limit on the files of an archive
/// bounds them.
pub proof fn law_documents_are_bounded<D>(
    context: Context,
    names: Seq<Seq<char>>,
    detect: Detect,
    extract: Extract<D>,
)
    ensures
        entries_outcome(context, names, detect, extract).children.len() <= names.len(),
    decreases names.len(),
{
    if names.len() > 0 {
        law_entry_gives_one_thing(context, names[0], detect, extract);
        law_documents_are_bounded(context, names.skip(1), detect, extract);
    }
}

/// Law: only entries below the prefix are opened, and no more than the limit allows.
pub proof fn law_only_embedded_entries_are_opened(context: Context, limit: nat)
    ensures
        admitted(context, limit).len() <= limit,
        forall|i: int|
            0 <= i < admitted(context, limit).len() ==> under_prefix(
                #[trigger] admitted(context, limit)[i],
                context.prefix,
            ),
{
    if is_archive(context.bytes) {
        let pred = |name: Option<Seq<char>>| name is Some && under_prefix(name->0, context.prefix);
        let found = embedding_names(context.bytes, context.prefix);
        let listed = Seq::new(
            entry_count(context.bytes),
            |i: int| entry_name_at(context.bytes, i),
        );
        assert forall|i: int| 0 <= i < found.len() implies under_prefix(
            #[trigger] found[i],
            context.prefix,
        ) by {
            listed.lemma_filter_pred(pred, i);
        }
    }
}

/// `sub` is `all` at the positions `at`, which only go up.
pub open spec fn picks<T>(sub: Seq<T>, all: Seq<T>, at: Seq<int>) -> bool {
    &&& at.len() == sub.len()
    &&& forall|i: int|
        #![trigger at[i]]
        0 <= i < at.len() ==> 0 <= at[i] < all.len() && sub[i] == all[at[i]]
    &&& forall|i: int, j: int| 0 <= i < j < at.len() ==> at[i] < at[j]
}

/// `sub` is `all` with some items left out.
pub open spec fn subsequence<T>(sub: Seq<T>, all: Seq<T>) -> bool {
    exists|at: Seq<int>| picks(sub, all, at)
}

/// The paths of documents.
pub open spec fn paths<D>(children: Seq<EntryText<D>>) -> Seq<Seq<char>> {
    children.map_values(|child: EntryText<D>| child.path)
}

/// The names of entries below the prefix.
pub open spec fn labels(names: Seq<Seq<char>>, prefix: Seq<char>) -> Seq<Seq<char>> {
    names.map_values(|name: Seq<char>| file_label(name, prefix))
}

proof fn lemma_entries_keep_the_order<D>(
    context: Context,
    names: Seq<Seq<char>>,
    detect: Detect,
    extract: Extract<D>,
)
    ensures
        subsequence(
            paths(entries_outcome(context, names, detect, extract).children),
            labels(names, context.prefix),
        ),
    decreases names.len(),
{
    let outcome = entries_outcome(context, names, detect, extract);
    let sub = paths(outcome.children);
    let all = labels(names, context.prefix);
    if names.len() == 0 {
        assert(picks(sub, all, seq![]));
    } else {
        let first = entry_outcome(context, names[0], detect, extract);
        let rest = entries_outcome(context, names.skip(1), detect, extract);
        law_entry_gives_one_thing(context, names[0], detect, extract);
        lemma_entries_keep_the_order(context, names.skip(1), detect, extract);
        let later = paths(rest.children);
        let below = labels(names.skip(1), context.prefix);
        let old_at = choose|at: Seq<int>| picks(later, below, at);
        let shifted = old_at.map_values(|i: int| i + 1);
        let at = if first.children.len() == 0 {
            shifted
        } else {
            seq![0int] + shifted
        };
        let k = first.children.len() as int;
        assert forall|i: int| #![trigger at[i]] 0 <= i < at.len() implies 0 <= at[i] < all.len()
            && sub[i] == all[at[i]] by {
            if i < k {
                assert(sub[i] == first.children[i].path);
            } else {
                assert(at[i] == old_at[i - k] + 1);
                assert(sub[i] == later[i - k]);
                assert(all[at[i]] == below[old_at[i - k]]);
            }
        }
        assert forall|i: int, j: int| 0 <= i < j < at.len() implies at[i] < at[j] by {
            assert(at[j] == old_at[j - k] + 1);
            if i >= k {
                assert(at[i] == old_at[i - k] + 1);
            }
        }
        assert(picks(sub, all, at));
    }
}

/// Law: documents come in the order of the archive. Their paths are the names of the entries that
/// are opened, below the prefix, with some left out.
pub proof fn law_documents_keep_the_order<D>(
    context: Context,
    limit: nat,
    depth: nat,
    detect: Detect,
    extract: Extract<D>,
)
    ensures
        ({
            let start = initial::<D>(context, limit, depth);
            let end = expected(context, settled(context, start), detect, extract);
            subsequence(paths(end.children), labels(admitted(context, limit), context.prefix))
        }),
{
    law_start_promises_the_entries(context, limit, depth, detect, extract);
    let names = if depth == 0 {
        seq![]
    } else {
        admitted(context, limit)
    };
    lemma_entries_keep_the_order(context, names, detect, extract);
    if depth == 0 {
        let nothing = paths(entries_outcome(context, names, detect, extract).children);
        assert(picks(nothing, labels(admitted(context, limit), context.prefix), seq![]));
    }
}

/// All warnings name this source.
pub open spec fn all_from(warnings: Seq<WarningText>, source: Seq<char>) -> bool {
    forall|i: int| 0 <= i < warnings.len() ==> (#[trigger] warnings[i]).source == source
}

proof fn lemma_entries_warn_from_the_source<D>(
    context: Context,
    names: Seq<Seq<char>>,
    detect: Detect,
    extract: Extract<D>,
)
    ensures
        all_from(
            entries_outcome(context, names, detect, extract).warnings,
            warning_source(context.source_label),
        ),
    decreases names.len(),
{
    if names.len() > 0 {
        lemma_entries_warn_from_the_source(context, names.skip(1), detect, extract);
        assert(all_from(
            entry_outcome(context, names[0], detect, extract).warnings,
            warning_source(context.source_label),
        ));
    }
}

/// Law: every warning of an extraction names the source `<source_label>_embedded_objects`.
pub proof fn law_warnings_name_their_source<D>(
    context: Context,
    limit: nat,
    depth: nat,
    detect: Detect,
    extract: Extract<D>,
)
    ensures
        ({
            let start = initial::<D>(context, limit, depth);
            let end = expected(context, settled(context, start), detect, extract);
            all_from(end.warnings, warning_source(context.source_label))
        }),
{
    law_start_promises_the_entries(context, limit, depth, detect, extract);
    let names = if depth == 0 {
        seq![]
    } else {
        admitted(context, limit)
    };
    lemma_entries_warn_from_the_source(context, names, detect, extract);
    let start = initial::<D>(context, limit, depth);
    assert(all_from(start.warnings, warning_source(context.source_label)));
}

/// How many answers an extraction can still ask for: of every entry left its MIME type and its
/// document, of the entry at hand what is still missing.
pub open spec fn answers_left<D>(progress: Progress<D>) -> nat {
    2 * progress.todo.len() + match progress.pending {
        PendingText::Nothing => 0nat,
        PendingText::Document { .. } => 1nat,
        _ => 2nat,
    }
}

/// Law: an extraction ends. Every answer leaves fewer to be asked for, so that a driver that
/// answers is asked at most twice for each entry that is opened.
pub proof fn law_extraction_ends<D>(
    context: Context,
    progress: Progress<D>,
    detected: Option<Seq<char>>,
    outcome: Result<D, Seq<char>>,
)
    requires
        !(progress.pending is Nothing),
    ensures
        progress.pending is Document ==> answers_left(after_document(context, progress, outcome))
            < answers_left(progress),
        !(progress.pending is Document) ==> answers_left(after_mime(context, progress, detected))
            < answers_left(progress),
{
    let (pending, warnings) = after_detection(context, progress.pending, detected);
    lemma_opening_asks_no_more(
        context,
        Progress {
            todo: progress.todo,
            pending,
            children: progress.children,
            warnings: progress.warnings + warnings,
        },
    );
    lemma_opening_asks_no_more(
        context,
        Progress {
            todo: progress.todo,
            pending: PendingText::Nothing,
            children: progress.children + extracted_child(progress.pending, outcome),
            warnings: progress.warnings + extraction_warning(
                context.source_label,
                progress.pending,
                outcome,
            ),
        },
    );
}

/// Law: the limit on the files of an archive bounds how often an extraction asks. It asks at most
/// twice for each file allowed, and never where no further level of archives may be opened.
pub proof fn law_questions_are_bounded<D>(context: Context, limit: nat, depth: nat)
    ensures
        answers_left(settled(context, initial::<D>(context, limit, depth))) <= 2 * limit,
        depth == 0 ==> answers_left(settled(context, initial::<D>(context, limit, depth))) == 0,
{
    lemma_opening_asks_no_more(context, initial::<D>(context, limit, depth));
}

proof fn lemma_opening_asks_no_more<D>(context: Context, progress: Progress<D>)
    ensures
        answers_left(settled(context, progress)) <= answers_left(progress),
    decreases progress.todo.len(),
{
    if progress.pending is Nothing && progress.todo.len() > 0 {
        let (pending, warnings) = opened(context, progress.todo[0]);
        lemma_opening_asks_no_more(
            context,
            Progress {
                todo: progress.todo.skip(1),
                pending,
                children: progress.children,
                warnings: progress.warnings + warnings,
            },
        );
    }
}

/// The entry can be opened, and all that it holds is `data`: something, and no more than the cap.
pub open spec fn holds(context: Context, name: Seq<char>, data: Seq<u8>) -> bool {
    &&& declared_size(context.bytes, name) is Some
    &&& 0 < data.len() <= context.cap
    &&& context.cap < u64::MAX ==> entry_read(context.bytes, name, (context.cap + 1) as u64) == Some(
        data,
    )
    &&& context.cap == u64::MAX ==> entry_read(context.bytes, name, u64::MAX) == Some(data)
}

/// `outcome` is what extracting `data` as `mime` gives: one document under `filename`, or one warning
/// that begins as `failure` and ends in the reason.
pub open spec fn is_extraction<D>(
    outcome: Outcome<D>,
    context: Context,
    filename: Seq<char>,
    data: Seq<u8>,
    mime: Seq<char>,
    extract: Extract<D>,
    failure: Seq<char>,
) -> bool {
    match extract(data, mime) {
        Ok(result) => {
            &&& outcome.children == seq![EntryText { path: filename, mime_type: mime, result }]
            &&& outcome.warnings.len() == 0
        },
        Err(error) => is_warning(outcome, context, failure + filename + "': "@ + error),
    }
}

/// `outcome` is one warning with this message.
pub open spec fn is_warning<D>(
    outcome: Outcome<D>,
    context: Context,
    message: Seq<char>,
) -> bool {
    &&& outcome.children.len() == 0
    &&& outcome.warnings == seq![
        WarningText { source: context.source_label + "_embedded_objects"@, message },
    ]
}

/// Law: an embedded file that is no OLE object comes to its document. It is extracted as the type
/// detected in it or, where none is, as the one that its extension suggests; where neither says
/// anything about it a warning does.
pub proof fn law_embedded_file_comes_to_its_document<D>(
    context: Context,
    filename: Seq<char>,
    data: Seq<u8>,
    detect: Detect,
    extract: Extract<D>,
)
    requires
        holds(context, context.prefix + filename, data),
        !(data.len() >= 4 && data[0] == 0xD0 && data[1] == 0xCF && data[2] == 0x11 && data[3]
            == 0xE0),
    ensures
        ({
            let outcome = entry_outcome(context, context.prefix + filename, detect, extract);
            let unknown = is_warning(
                outcome,
                context,
                "Skipped embedded file '"@ + filename + "': MIME type could not be determined"@,
            );
            let extracted = |mime: Seq<char>|
                is_extraction(
                    outcome,
                    context,
                    filename,
                    data,
                    mime,
                    extract,
                    "Failed to extract embedded '"@,
                );
            let suggested = match extension(filename) {
                Some(ext) => mime_for_extension(ext),
                None => None,
            };
            &&& detect(data) matches Some(mime) ==> if mime == "application/octet-stream"@ {
                unknown
            } else {
                extracted(mime)
            }
            &&& detect(data) is None ==> (suggested matches Some(mime) ==> if mime
                == "application/octet-stream"@ {
                unknown
            } else {
                extracted(mime)
            })
            &&& detect(data) is None && suggested is None ==> unknown
        }),
{
    let name = context.prefix + filename;
    law_label_is_what_follows_the_prefix(context.prefix, filename, name);
    assert(!ole_magic().is_prefix_of(data)) by {
        if ole_magic().is_prefix_of(data) {
            assert(data[0] == ole_magic()[0] && data[1] == ole_magic()[1] && data[2]
                == ole_magic()[2] && data[3] == ole_magic()[3]);
        }
    }
    let outcome = entry_outcome(context, name, detect, extract);
    assert(outcome.warnings.len() == 1 ==> outcome.warnings =~= seq![outcome.warnings[0]]);
    assert(outcome.children.len() == 1 ==> outcome.children =~= seq![outcome.children[0]]);
}

/// Law: an OLE object that carries a package comes to the document in the package, under the type
/// detected in it; without one a warning says that the format is not known.
pub proof fn law_package_comes_to_its_document<D>(
    context: Context,
    filename: Seq<char>,
    data: Seq<u8>,
    package: Seq<u8>,
    detect: Detect,
    extract: Extract<D>,
)
    requires
        holds(context, context.prefix + filename, data),
        data.len() >= 4 && data[0] == 0xD0 && data[1] == 0xCF && data[2] == 0x11 && data[3] == 0xE0,
        is_compound(data),
        has_object(data, "Package"@),
        stream_data(data, "Package"@) == Some(package),
        package.len() > 0,
    ensures
        ({
            let outcome = entry_outcome(context, context.prefix + filename, detect, extract);
            &&& detect(package) matches Some(mime) ==> is_extraction(
                outcome,
                context,
                filename,
                package,
                mime,
                extract,
                "Failed to extract embedded OLE object '"@,
            )
            &&& detect(package) is None ==> is_warning(
                outcome,
                context,
                "Skipped OLE compound file '"@ + filename
                    + "': format identification not supported"@,
            )
        }),
{
    let name = context.prefix + filename;
    law_label_is_what_follows_the_prefix(context.prefix, filename, name);
    assert(ole_magic().is_prefix_of(data));
    let outcome = entry_outcome(context, name, detect, extract);
    assert(outcome.warnings.len() == 1 ==> outcome.warnings =~= seq![outcome.warnings[0]]);
    assert(outcome.children.len() == 1 ==> outcome.children =~= seq![outcome.children[0]]);
}

/// Law: an OLE object without a package comes to itself, as the legacy document that its root
/// streams tell, whatever content detection would say; where they tell none, a warning says that
/// the format is not known.
pub proof fn law_legacy_document_comes_to_itself<D>(
    context: Context,
    filename: Seq<char>,
    data: Seq<u8>,
    detect: Detect,
    extract: Extract<D>,
)
    requires
        holds(context, context.prefix + filename, data),
        data.len() >= 4 && data[0] == 0xD0 && data[1] == 0xCF && data[2] == 0x11 && data[3] == 0xE0,
        is_compound(data) ==> !has_object(data, "Package"@),
    ensures
        ({
            let outcome = entry_outcome(context, context.prefix + filename, detect, extract);
            let extracted = |mime: Seq<char>|
                is_extraction(
                    outcome,
                    context,
                    filename,
                    data,
                    mime,
                    extract,
                    "Failed to extract embedded OLE object '"@,
                );
            let word = has_object(data, "WordDocument"@);
            let slides = has_object(data, "PowerPoint Document"@);
            let sheet = has_object(data, "Workbook"@) || has_object(data, "Book"@);
            &&& is_compound(data) && word ==> extracted("application/msword"@)
            &&& is_compound(data) && !word && slides ==> extracted("application/vnd.ms-powerpoint"@)
            &&& is_compound(data) && !word && !slides && sheet ==> extracted(
                "application/vnd.ms-excel"@,
            )
            &&& !is_compound(data) || (!word && !slides && !sheet) ==> is_warning(
                outcome,
                context,
                "Skipped OLE compound file '"@ + filename
                    + "': format identification not supported"@,
            )
        }),
{
    let name = context.prefix + filename;
    law_label_is_what_follows_the_prefix(context.prefix, filename, name);
    assert(ole_magic().is_prefix_of(data));
    let outcome = entry_outcome(context, name, detect, extract);
    assert(outcome.warnings.len() == 1 ==> outcome.warnings =~= seq![outcome.warnings[0]]);
    assert(outcome.children.len() == 1 ==> outcome.children =~= seq![outcome.children[0]]);
}

/// Law: an OLE object whose package is empty or cannot be read is reported as not identified.
pub proof fn law_damaged_package_is_reported<D>(
    context: Context,
    filename: Seq<char>,
    data: Seq<u8>,
    detect: Detect,
    extract: Extract<D>,
)
    requires
        holds(context, context.prefix + filename, data),
        data.len() >= 4 && data[0] == 0xD0 && data[1] == 0xCF && data[2] == 0x11 && data[3] == 0xE0,
        is_compound(data),
        has_object(data, "Package"@),
        stream_data(data, "Package"@) matches Some(package) ==> package.len() == 0,
    ensures
        is_warning(
            entry_outcome(context, context.prefix + filename, detect, extract),
            context,
            "Skipped OLE compound file '"@ + filename + "': format identification not supported"@,
        ),
{
    let name = context.prefix + filename;
    law_label_is_what_follows_the_prefix(context.prefix, filename, name);
    assert(ole_magic().is_prefix_of(data));
    let outcome = entry_outcome(context, name, detect, extract);
    assert(outcome.warnings.len() == 1 ==> outcome.warnings =~= seq![outcome.warnings[0]]);
}

/// Law: an entry that cannot be opened or is empty leaves no trace; one that cannot be read, or is
/// over the cap, leaves one warning and no document.
pub proof fn law_unusable_entry_gives_no_document<D>(
    context: Context,
    filename: Seq<char>,
    limit: u64,
    detect: Detect,
    extract: Extract<D>,
)
    requires
        limit == if context.cap < u64::MAX {
            context.cap + 1
        } else {
            u64::MAX as int
        },
    ensures
        ({
            let name = context.prefix + filename;
            let outcome = entry_outcome(context, name, detect, extract);
            let nothing = outcome.children.len() == 0 && outcome.warnings.len() == 0;
            &&& declared_size(context.bytes, name) is None ==> nothing
            &&& declared_size(context.bytes, name) is Some ==> match entry_read(
                context.bytes,
                name,
                limit,
            ) {
                None => is_warning(
                    outcome,
                    context,
                    "Failed to read embedded file '"@ + filename + "'"@,
                ),
                Some(data) => {
                    &&& data.len() == 0 ==> nothing
                    &&& data.len() > context.cap ==> is_warning(
                        outcome,
                        context,
                        "Skipped embedded file '"@ + filename + "': size "@ + decimal(
                            context.cap as nat + 1,
                        ) + " bytes exceeds cap "@ + decimal(context.cap as nat) + " bytes"@,
                    )
                },
            }
        }),
{
    let name = context.prefix + filename;
    law_label_is_what_follows_the_prefix(context.prefix, filename, name);
    let outcome = entry_outcome(context, name, detect, extract);
    assert(outcome.warnings.len() == 1 ==> outcome.warnings =~= seq![outcome.warnings[0]]);
}

/// Law: entries do not touch each other. What comes of two lists one after the other is what comes
/// of the first, followed by what comes of the second; and what comes of a single entry is its own
/// outcome.
pub proof fn law_entries_are_independent<D>(
    context: Context,
    first: Seq<Seq<char>>,
    second: Seq<Seq<char>>,
    name: Seq<char>,
    detect: Detect,
    extract: Extract<D>,
)
    ensures
        ({
            let a = entries_outcome(context, first, detect, extract);
            let b = entries_outcome(context, second, detect, extract);
            let both = entries_outcome(context, first + second, detect, extract);
            &&& both.children == a.children + b.children
            &&& both.warnings == a.warnings + b.warnings
        }),
        entries_outcome(context, seq![name], detect, extract).children == entry_outcome(
            context,
            name,
            detect,
            extract,
        ).children,
        entries_outcome(context, seq![name], detect, extract).warnings == entry_outcome(
            context,
            name,
            detect,
            extract,
        ).warnings,
        entries_outcome(context, seq![], detect, extract).children.len() == 0,
        entries_outcome(context, seq![], detect, extract).warnings.len() == 0,
    decreases first.len(),
{
    reveal_with_fuel(entries_outcome, 2);
    assert(seq![name].skip(1) == Seq::<Seq<char>>::empty());
    if first.len() == 0 {
        assert(first + second == second);
        let b = entries_outcome(context, second, detect, extract);
        assert(Seq::<EntryText<D>>::empty() + b.children == b.children);
        assert(Seq::<WarningText>::empty() + b.warnings == b.warnings);
    } else {
        law_entries_are_independent(context, first.skip(1), second, name, detect, extract);
        assert((first + second).skip(1) == first.skip(1) + second);
        let a = entries_outcome(context, first, detect, extract);
        let b = entries_outcome(context, second, detect, extract);
        let both = entries_outcome(context, first + second, detect, extract);
        assert(both.children =~= a.children + b.children);
        assert(both.warnings =~= a.warnings + b.warnings);
    }
}

} // verus!
