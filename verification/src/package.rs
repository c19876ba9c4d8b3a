//! Reading the entries of a ZIP package held in memory, within bounds.

use crate::config::{ExtractionConfig, SecurityLimits};
use crate::text::{decimal, join, strip_prefix, text_of, texts_of, to_decimal};
use crate::types::{warnings_text, ProcessingWarning, WarningText};
use std::io::{Cursor, Read};
use vstd::prelude::*;
use vstd::string::StringExecFns;

verus! {

/// A reader over a value in memory.
#[verifier::external_type_specification]
#[verifier::external_body]
#[verifier::reject_recursive_types(T)]
pub struct ExCursor<T>(std::io::Cursor<T>);

/// A ZIP archive over a reader.
#[verifier::external_type_specification]
#[verifier::external_body]
#[verifier::reject_recursive_types(R)]
pub struct ExZipArchive<R>(zip::ZipArchive<R>);

/// The bytes that an archive holds: those that it was opened on.
pub uninterp spec fn archive_bytes(archive: zip::ZipArchive<Cursor<&[u8]>>) -> Seq<u8>;

/// Whether `zip` finds an archive in these bytes.
pub uninterp spec fn is_archive(bytes: Seq<u8>) -> bool;

/// How many entries `zip` lists in these bytes.
pub uninterp spec fn entry_count(bytes: Seq<u8>) -> nat;

/// The name of the entry at a position, where `zip` can open that entry.
pub uninterp spec fn entry_name_at(bytes: Seq<u8>, index: int) -> Option<Seq<char>>;

/// The uncompressed size that the archive declares for the entry of that name, where `zip` can
/// open that entry.
pub uninterp spec fn declared_size(bytes: Seq<u8>, name: Seq<char>) -> Option<u64>;

/// What reading the entry of that name gives when it stops after `limit` bytes; `None` where
/// reading fails.
pub uninterp spec fn entry_read(bytes: Seq<u8>, name: Seq<char>, limit: u64) -> Option<Seq<u8>>;

/// What reading the entry of that name to its end gives.
pub open spec fn entry_content(bytes: Seq<u8>, name: Seq<char>) -> Option<Seq<u8>> {
    entry_read(bytes, name, u64::MAX)
}

/// The bytes of an optional buffer.
pub open spec fn bytes_of(data: Option<Vec<u8>>) -> Option<Seq<u8>> {
    match data {
        Some(d) => Some(d@),
        None => None,
    }
}

/// `zip::ZipArchive::new` over the bytes. Whether they hold an archive depends on the bytes
/// alone; the archive goes on reading from those bytes.
#[verifier::external_body]
pub(crate) fn open_archive<'a>(bytes: &'a [u8]) -> (r: Option<zip::ZipArchive<Cursor<&'a [u8]>>>)
    ensures
        r is Some <==> is_archive(bytes@),
        r matches Some(archive) ==> archive_bytes(archive) == bytes@,
{
    zip::ZipArchive::new(Cursor::new(bytes)).ok()
}

/// `zip::ZipArchive::len`: the number of entries, which depends on the bytes alone.
#[verifier::external_body]
fn archive_len(archive: &zip::ZipArchive<Cursor<&[u8]>>) -> (r: usize)
    ensures
        r == entry_count(archive_bytes(*archive)),
{
    archive.len()
}

/// `zip::ZipArchive::by_index`, with `ZipFile::name` of the entry. Both depend on the bytes and
/// the position alone, and the archive still holds the same bytes afterwards.
#[verifier::external_body]
fn entry_name(archive: &mut zip::ZipArchive<Cursor<&[u8]>>, index: usize) -> (r: Option<String>)
    ensures
        archive_bytes(*final(archive)) == archive_bytes(*old(archive)),
        text_of(r) == entry_name_at(archive_bytes(*old(archive)), index as int),
{
    match archive.by_index(index) {
        Ok(file) => Some(file.name().to_string()),
        Err(_) => None,
    }
}

/// `zip::ZipArchive::by_name`, with `ZipFile::size` of the entry: the size that the archive
/// declares, which nothing holds against the data. Both depend on the bytes and the name alone,
/// and the archive still holds the same bytes afterwards.
#[verifier::external_body]
fn entry_size(archive: &mut zip::ZipArchive<Cursor<&[u8]>>, name: &str) -> (r: Option<u64>)
    ensures
        archive_bytes(*final(archive)) == archive_bytes(*old(archive)),
        r == declared_size(archive_bytes(*old(archive)), name@),
{
    match archive.by_name(name) {
        Ok(file) => Some(file.size()),
        Err(_) => None,
    }
}

/// `std::io::Read::read_to_end` on an entry of `zip`, taken up to `limit` bytes
/// (`std::io::Read::take`). As long as there is memory, what is read depends on the bytes, the name
/// and the limit alone, and is never longer than the limit; what is shorter than the limit is all
/// that the entry holds, and of an entry that can be read to its end a limited read is the
/// beginning. `room` is only how much memory is set aside beforehand; it has to be the
/// declared size clamped to the cap that the limit stands for. The archive still holds the same
/// bytes afterwards.
#[verifier::external_body]
fn read_entry(
    archive: &mut zip::ZipArchive<Cursor<&[u8]>>,
    name: &str,
    room: usize,
    limit: u64,
) -> (r: Option<Vec<u8>>)
    requires
        declared_size(archive_bytes(*old(archive)), name@) is Some,
        exists|cap: u64|
            limit == #[trigger] read_limit(cap) && room == room_for(
                declared_size(archive_bytes(*old(archive)), name@)->0,
                cap,
            ),
        room <= limit,
        room <= isize::MAX,
    ensures
        archive_bytes(*final(archive)) == archive_bytes(*old(archive)),
        bytes_of(r) == entry_read(archive_bytes(*old(archive)), name@, limit),
        r matches Some(data) ==> data@.len() <= limit,
        r matches Some(data) ==> data@.len() < limit ==> entry_read(
            archive_bytes(*old(archive)),
            name@,
            u64::MAX,
        ) == Some(data@),
        entry_read(archive_bytes(*old(archive)), name@, u64::MAX) matches Some(all) ==> bytes_of(r)
            == Some(
            all.take(
                if all.len() < limit {
                    all.len() as int
                } else {
                    limit as int
                },
            ),
        ),
{
    let mut data = Vec::with_capacity(room);
    match archive.by_name(name).ok()?.take(limit).read_to_end(&mut data) {
        Ok(_) => Some(data),
        Err(_) => None,
    }
}

/// The source named by the warnings about embedded objects.
pub open spec fn warning_source(source_label: Seq<char>) -> Seq<char> {
    source_label + "_embedded_objects"@
}

/// The warning about embedded objects with this message.
pub open spec fn warning_text(source_label: Seq<char>, message: Seq<char>) -> WarningText {
    WarningText { source: warning_source(source_label), message }
}

/// Build a warning whose source is `<source_label>_embedded_objects`.
pub fn embedded_objects_warning(source_label: &str, message: String) -> (r: ProcessingWarning)
    ensures
        r@ == warning_text(source_label@, message@),
        r.source@ == source_label@ + "_embedded_objects"@,
        r.message == message,
{
    ProcessingWarning { source: join(source_label, "_embedded_objects"), message }
}

/// An entry belongs to the directory `prefix`: its name starts with the prefix and is longer, so
/// that the directory itself does not count.
pub open spec fn under_prefix(name: Seq<char>, prefix: Seq<char>) -> bool {
    prefix.is_prefix_of(name) && name.len() > prefix.len()
}

/// The names of the first `count` entries that belong to the directory `prefix`, in the order of
/// the archive.
pub open spec fn names_among(bytes: Seq<u8>, prefix: Seq<char>, count: nat) -> Seq<Seq<char>> {
    Seq::new(count, |i: int| entry_name_at(bytes, i)).filter(
        |name: Option<Seq<char>>| name is Some && under_prefix(name->0, prefix),
    ).map_values(|name: Option<Seq<char>>| name->0)
}

/// The names of the entries that belong to the directory `prefix`, in the order of the archive.
pub open spec fn embedding_names(bytes: Seq<u8>, prefix: Seq<char>) -> Seq<Seq<char>> {
    names_among(bytes, prefix, entry_count(bytes))
}

proof fn lemma_names_among_next(bytes: Seq<u8>, prefix: Seq<char>, count: nat)
    ensures
        names_among(bytes, prefix, count + 1) == (match entry_name_at(bytes, count as int) {
            Some(name) => if under_prefix(name, prefix) {
                names_among(bytes, prefix, count).push(name)
            } else {
                names_among(bytes, prefix, count)
            },
            None => names_among(bytes, prefix, count),
        }),
{
    let pred = |name: Option<Seq<char>>| name is Some && under_prefix(name->0, prefix);
    let f = |name: Option<Seq<char>>| name->0;
    let longer = Seq::new(count + 1, |i: int| entry_name_at(bytes, i));
    let shorter = Seq::new(count, |i: int| entry_name_at(bytes, i));
    assert(longer.drop_last() == shorter);
    assert(longer.last() == entry_name_at(bytes, count as int));
    reveal(Seq::filter);
    assert(longer.filter(pred) == if pred(longer.last()) {
        shorter.filter(pred).push(longer.last())
    } else {
        shorter.filter(pred)
    });
    assert(shorter.filter(pred).push(longer.last()).map_values(f) == shorter.filter(
        pred,
    ).map_values(f).push(f(longer.last())));
}

/// Collect the names of the entries under `embeddings_prefix`. An entry whose name is just the
/// prefix, the directory itself, is left out, and so is one that cannot be opened.
pub fn collect_embedding_names(
    archive: &mut zip::ZipArchive<Cursor<&[u8]>>,
    embeddings_prefix: &str,
) -> (r: Vec<String>)
    ensures
        archive_bytes(*final(archive)) == archive_bytes(*old(archive)),
        texts_of(r@) == embedding_names(archive_bytes(*old(archive)), embeddings_prefix@),
        forall|i: int|
            #![trigger r@[i]]
            0 <= i < r@.len() ==> embeddings_prefix@.is_prefix_of(r@[i]@) && r@[i]@.len()
                > embeddings_prefix@.len(),
{
    let ghost bytes = archive_bytes(*archive);
    let count: usize = archive_len(archive);
    let mut names: Vec<String> = Vec::new();
    let mut index: usize = 0;
    proof {
        reveal(Seq::filter);
        assert(texts_of(names@) == names_among(bytes, embeddings_prefix@, 0));
    }
    while index < count
        invariant
            index <= count,
            count == entry_count(bytes),
            archive_bytes(*archive) == bytes,
            texts_of(names@) == names_among(bytes, embeddings_prefix@, index as nat),
            forall|i: int|
                #![trigger names@[i]]
                0 <= i < names@.len() ==> embeddings_prefix@.is_prefix_of(names@[i]@)
                    && names@[i]@.len() > embeddings_prefix@.len(),
        decreases count - index,
    {
        proof {
            lemma_names_among_next(bytes, embeddings_prefix@, index as nat);
        }
        if let Some(name) = entry_name(archive, index) {
            let belongs: bool = match strip_prefix(name.as_str(), embeddings_prefix) {
                Some(rest) => !rest.is_empty(),
                None => false,
            };
            proof {
                assert(belongs == under_prefix(name@, embeddings_prefix@));
            }
            if belongs {
                let ghost before = names@;
                names.push(name);
                proof {
                    assert(texts_of(names@) == texts_of(before).push(name@));
                }
            }
        }
        index += 1;
    }
    names
}

/// The message about embedded objects left out because there are too many.
pub open spec fn too_many_message(skipped: nat, prefix: Seq<char>, limit: nat) -> Seq<char> {
    "Skipped "@ + decimal(skipped) + " embedded object(s) under '"@ + prefix
        + "': max_files_in_archive ("@ + decimal(limit) + ") reached"@
}

/// The warnings about embedded objects left out because there are too many: none, or one that
/// names how many.
pub open spec fn too_many_warnings(
    found: nat,
    limit: nat,
    prefix: Seq<char>,
    source_label: Seq<char>,
) -> Seq<WarningText> {
    if found <= limit {
        seq![]
    } else {
        seq![warning_text(source_label, too_many_message((found - limit) as nat, prefix, limit))]
    }
}

/// Truncate `embedding_names` to `max_files_in_archive`, pushing a warning that names how many
/// entries were dropped when the limit was hit.
pub fn enforce_max_files_in_archive(
    embedding_names: &mut Vec<String>,
    max_files_in_archive: usize,
    embeddings_prefix: &str,
    source_label: &str,
    warnings: &mut Vec<ProcessingWarning>,
)
    ensures
        final(embedding_names)@ == if old(embedding_names)@.len() <= max_files_in_archive {
            old(embedding_names)@
        } else {
            old(embedding_names)@.take(max_files_in_archive as int)
        },
        warnings_text(final(warnings)@) == warnings_text(old(warnings)@) + too_many_warnings(
            old(embedding_names)@.len(),
            max_files_in_archive as nat,
            embeddings_prefix@,
            source_label@,
        ),
{
    if embedding_names.len() <= max_files_in_archive {
        proof {
            assert(warnings_text(warnings@) == warnings_text(warnings@) + seq![]);
        }
        return;
    }
    let skipped: usize = embedding_names.len() - max_files_in_archive;
    let mut message: String = join("Skipped ", to_decimal(skipped as u64).as_str());
    message.append(" embedded object(s) under '");
    message.append(embeddings_prefix);
    message.append("': max_files_in_archive (");
    message.append(to_decimal(max_files_in_archive as u64).as_str());
    message.append(") reached");
    warn(warnings, source_label, message);
    embedding_names.truncate(max_files_in_archive);
}

/// Push a warning about embedded objects.
pub(crate) fn warn(warnings: &mut Vec<ProcessingWarning>, source_label: &str, message: String)
    ensures
        warnings_text(final(warnings)@) == warnings_text(old(warnings)@) + seq![
            warning_text(source_label@, message@),
        ],
{
    warnings.push(embedded_objects_warning(source_label, message));
    proof {
        assert(warnings_text(warnings@) == warnings_text(old(warnings)@) + seq![
            warning_text(source_label@, message@),
        ]);
    }
}

/// The bound on the size of one embedded file.
pub open spec fn capacity_cap<O, R>(
    config: ExtractionConfig<O, R>,
    limits: SecurityLimits,
) -> u64 {
    match config.max_embedded_file_bytes {
        Some(bytes) => bytes,
        None => limits.max_archive_size as u64,
    }
}

/// Upper bound for both the memory set aside for an embedded file and what is read of it.
///
/// The size that an archive declares for an entry is whatever its author wrote there, so it must
/// not decide how much memory is allocated. The limit that the caller set on embedded files comes
/// first; where the caller switched it off, the limit on whole archives stands in.
pub fn embedded_file_capacity_cap<O, R>(
    config: &ExtractionConfig<O, R>,
    security_limits: &SecurityLimits,
) -> (r: u64)
    ensures
        r == capacity_cap(*config, *security_limits),
        config.max_embedded_file_bytes matches Some(bytes) ==> r == bytes,
        config.max_embedded_file_bytes is None ==> r == security_limits.max_archive_size,
{
    match config.max_embedded_file_bytes {
        Some(bytes) => bytes,
        None => security_limits.max_archive_size as u64,
    }
}

/// The smaller one of a declared size and the cap.
pub open spec fn clamped(declared: u64, cap: u64) -> u64 {
    if declared < cap {
        declared
    } else {
        cap
    }
}

/// Clamp an untrusted declared size to at most `cap` bytes.
pub fn clamp_declared_size(declared: u64, cap: u64) -> (r: u64)
    ensures
        r == clamped(declared, cap),
        r <= cap,
        r <= declared,
        r == cap || r == declared,
{
    if declared < cap {
        declared
    } else {
        cap
    }
}

/// How much memory is set aside for an entry: its declared size, clamped to the cap. Nothing is
/// where that is more than any allocation can hold, and the buffer grows as it is filled.
pub open spec fn room_for(declared: u64, cap: u64) -> usize {
    if clamped(declared, cap) <= isize::MAX {
        clamped(declared, cap) as usize
    } else {
        0
    }
}

/// The memory to set aside for an entry of that declared size.
pub fn capacity_hint(declared: u64, cap: u64) -> (r: usize)
    ensures
        r == room_for(declared, cap),
        declared <= cap && declared <= isize::MAX ==> r == declared,
        cap <= declared && cap <= isize::MAX ==> r == cap,
        r <= cap,
        r <= declared,
        r <= isize::MAX,
{
    let hint: u64 = clamp_declared_size(declared, cap);
    if hint <= isize::MAX as u64 {
        hint as usize
    } else {
        0
    }
}

/// How many bytes of an entry are read at most: one more than the cap, so that an entry over the
/// cap shows.
pub open spec fn read_limit(cap: u64) -> u64 {
    if cap < u64::MAX {
        (cap + 1) as u64
    } else {
        cap
    }
}

/// The message about an entry whose data cannot be read.
pub open spec fn unreadable_message(filename: Seq<char>) -> Seq<char> {
    "Failed to read embedded file '"@ + filename + "'"@
}

/// The message about an entry with more data than the cap allows.
pub open spec fn oversized_message(filename: Seq<char>, size: nat, cap: nat) -> Seq<char> {
    "Skipped embedded file '"@ + filename + "': size "@ + decimal(size) + " bytes exceeds cap "@
        + decimal(cap) + " bytes"@
}

/// The data of an entry, where it can be read, is not empty and is within the cap.
pub open spec fn entry_data(bytes: Seq<u8>, name: Seq<char>, cap: u64) -> Option<Seq<u8>> {
    if declared_size(bytes, name) is None {
        None
    } else {
        match entry_read(bytes, name, read_limit(cap)) {
            Some(data) => if 0 < data.len() <= cap {
                Some(data)
            } else {
                None
            },
            None => None,
        }
    }
}

/// The warnings that reading an entry gives: one where its data cannot be read, and one where it
/// is over the cap. Reading stops one byte past the cap, so that is the size that the latter names.
/// An entry that cannot be opened, or is empty, is passed over without a warning.
pub open spec fn read_warnings(
    bytes: Seq<u8>,
    name: Seq<char>,
    filename: Seq<char>,
    cap: u64,
    source_label: Seq<char>,
) -> Seq<WarningText> {
    if declared_size(bytes, name) is None {
        seq![]
    } else {
        match entry_read(bytes, name, read_limit(cap)) {
            Some(data) => if data.len() > cap {
                seq![
                    warning_text(
                        source_label,
                        oversized_message(filename, cap as nat + 1, cap as nat),
                    ),
                ]
            } else {
                seq![]
            },
            None => seq![warning_text(source_label, unreadable_message(filename))],
        }
    }
}

/// Read the data of one entry, holding both the memory set aside and what is read to
/// `embedded_capacity_cap`. What is handed back is all that the entry holds. An entry that is
/// unreadable, empty or over the cap is passed over, with a warning where it is unreadable or over
/// the cap.
pub fn read_embedded_entry_bytes(
    archive: &mut zip::ZipArchive<Cursor<&[u8]>>,
    entry_name: &str,
    filename: &str,
    embedded_capacity_cap: u64,
    source_label: &str,
    warnings: &mut Vec<ProcessingWarning>,
) -> (r: Option<Vec<u8>>)
    ensures
        archive_bytes(*final(archive)) == archive_bytes(*old(archive)),
        bytes_of(r) == entry_data(
            archive_bytes(*old(archive)),
            entry_name@,
            embedded_capacity_cap,
        ),
        r matches Some(data) ==> 0 < data@.len() <= embedded_capacity_cap,
        r matches Some(data) ==> entry_content(archive_bytes(*old(archive)), entry_name@) == Some(
            data@,
        ),
        declared_size(archive_bytes(*old(archive)), entry_name@) is Some ==> (entry_content(
            archive_bytes(*old(archive)),
            entry_name@,
        ) matches Some(all) ==> bytes_of(r) == if 0 < all.len() <= embedded_capacity_cap {
            Some(all)
        } else {
            None
        }),
        declared_size(archive_bytes(*old(archive)), entry_name@) is Some ==> (entry_read(
            archive_bytes(*old(archive)),
            entry_name@,
            read_limit(embedded_capacity_cap),
        ) matches Some(data) ==> data.len() <= read_limit(embedded_capacity_cap)),
        warnings_text(final(warnings)@) == warnings_text(old(warnings)@) + read_warnings(
            archive_bytes(*old(archive)),
            entry_name@,
            filename@,
            embedded_capacity_cap,
            source_label@,
        ),
{
    proof {
        assert(warnings_text(warnings@) == warnings_text(warnings@) + seq![]);
    }
    let declared: u64 = match entry_size(archive, entry_name) {
        Some(size) => size,
        None => return None,
    };
    let room: usize = capacity_hint(declared, embedded_capacity_cap);
    let limit: u64 = embedded_capacity_cap.saturating_add(1);
    let data: Vec<u8> = match read_entry(archive, entry_name, room, limit) {
        Some(data) => data,
        None => {
            let mut message: String = join("Failed to read embedded file '", filename);
            message.append("'");
            warn(warnings, source_label, message);
            return None;
        },
    };
    if data.len() == 0 {
        return None;
    }
    if data.len() as u64 > embedded_capacity_cap {
        let mut message: String = join("Skipped embedded file '", filename);
        message.append("': size ");
        message.append(to_decimal(data.len() as u64).as_str());
        message.append(" bytes exceeds cap ");
        message.append(to_decimal(embedded_capacity_cap).as_str());
        message.append(" bytes");
        warn(warnings, source_label, message);
        return None;
    }
    Some(data)
}

/// `at` are the positions, going up, at which the archive lists the names.
pub open spec fn listed_at(bytes: Seq<u8>, names: Seq<Seq<char>>, at: Seq<int>) -> bool {
    &&& at.len() == names.len()
    &&& forall|k: int|
        #![trigger at[k]]
        0 <= k < at.len() ==> at[k] >= 0 && entry_name_at(bytes, at[k]) == Some(names[k])
    &&& forall|j: int, k: int| 0 <= j < k < at.len() ==> at[j] < at[k]
}

proof fn lemma_names_are_those_listed(
    bytes: Seq<u8>,
    prefix: Seq<char>,
    count: nat,
) -> (at: Seq<int>)
    ensures
        listed_at(bytes, names_among(bytes, prefix, count), at),
        forall|k: int| #![trigger at[k]] 0 <= k < at.len() ==> at[k] < count,
        forall|i: int|
            0 <= i < count ==> (at.contains(i) <==> (#[trigger] entry_name_at(bytes, i) matches Some(
                name,
            ) && prefix.is_prefix_of(name) && name.len() > prefix.len())),
    decreases count,
{
    if count == 0 {
        reveal(Seq::filter);
        let at = Seq::<int>::empty();
        assert(names_among(bytes, prefix, 0) == Seq::<Seq<char>>::empty());
        at
    } else {
        let less = (count - 1) as nat;
        let before = lemma_names_are_those_listed(bytes, prefix, less);
        lemma_names_among_next(bytes, prefix, less);
        let takes = entry_name_at(bytes, less as int) matches Some(name) && under_prefix(
            name,
            prefix,
        );
        let at = if takes {
            before.push(less as int)
        } else {
            before
        };
        assert forall|i: int| 0 <= i < count implies (at.contains(i) <==> (
        #[trigger] entry_name_at(bytes, i) matches Some(name) && prefix.is_prefix_of(name)
            && name.len() > prefix.len())) by {
            if i < less {
                if before.contains(i) {
                    let k = choose|k: int| 0 <= k < before.len() && before[k] == i;
                    assert(at[k] == i);
                }
                if at.contains(i) {
                    let k = choose|k: int| 0 <= k < at.len() && at[k] == i;
                    assert(before[k] == i);
                }
            } else {
                if takes {
                    assert(at[before.len() as int] == i);
                }
                if at.contains(i) && !takes {
                    let k = choose|k: int| 0 <= k < at.len() && at[k] == i;
                    assert(before[k] < less);
                }
            }
        }
        at
    }
}

/// Law: the names collected are those of all entries whose name goes on after the prefix, each once
/// for each time that the archive lists it, in the order of the archive, and no others.
pub proof fn law_every_embedded_entry_is_named(bytes: Seq<u8>, prefix: Seq<char>) -> (at: Seq<int>)
    ensures
        listed_at(bytes, embedding_names(bytes, prefix), at),
        forall|k: int| #![trigger at[k]] 0 <= k < at.len() ==> at[k] < entry_count(bytes),
        forall|i: int|
            0 <= i < entry_count(bytes) ==> (at.contains(i) <==> (#[trigger] entry_name_at(bytes, i)
                matches Some(name) && prefix.is_prefix_of(name) && name.len() > prefix.len())),
{
    lemma_names_are_those_listed(bytes, prefix, entry_count(bytes))
}

/// Law: an entry belongs to a directory exactly when its name is that of the directory with
/// something after it.
pub proof fn law_entry_goes_on_after_the_prefix(prefix: Seq<char>, rest: Seq<char>, name: Seq<char>)
    ensures
        under_prefix(prefix + rest, prefix) <==> rest.len() > 0,
        under_prefix(name, prefix) ==> name == prefix + name.skip(prefix.len() as int),
        !under_prefix(prefix, prefix),
{
    assert(prefix.is_prefix_of(prefix + rest));
    if under_prefix(name, prefix) {
        assert(name =~= prefix + name.skip(prefix.len() as int));
    }
}

/// Law: the limit on embedded files goes before the one on archives, which counts only where the
/// former is switched off.
pub proof fn law_limit_on_files_goes_first<O, R>(
    config: ExtractionConfig<O, R>,
    limits: SecurityLimits,
)
    ensures
        config.max_embedded_file_bytes matches Some(bytes) ==> capacity_cap(config, limits)
            == bytes,
        config.max_embedded_file_bytes is None ==> capacity_cap(config, limits)
            == limits.max_archive_size,
{
}

/// Law: no declared size makes more memory be set aside than the cap allows, nor more than was
/// declared; within those bounds it is exactly the smaller one. A larger declaration never makes
/// less be set aside as long as the cap itself can be allocated.
pub proof fn law_forged_size_is_clamped(declared: u64, more: u64, cap: u64)
    ensures
        clamped(declared, cap) <= cap,
        clamped(declared, cap) <= declared,
        clamped(declared, cap) == cap || clamped(declared, cap) == declared,
        room_for(declared, cap) <= cap,
        room_for(declared, cap) <= declared,
        cap <= isize::MAX ==> room_for(declared, cap) == clamped(declared, cap),
        cap <= isize::MAX && declared <= more ==> room_for(declared, cap) <= room_for(more, cap),
{
}

/// Law: one byte past the cap is read, so that an entry over the cap shows, and never more.
pub proof fn law_one_byte_past_the_cap_is_read(cap: u64)
    ensures
        cap < u64::MAX ==> read_limit(cap) == cap + 1,
        cap == u64::MAX ==> read_limit(cap) == u64::MAX,
{
}

/// Law: what becomes of an entry once it was opened and read up to one byte past the cap. It is
/// accepted exactly when something was read and no more than the cap, and then without a warning.
/// Of an entry that cannot be opened or is empty nothing is said.
pub proof fn law_entry_is_accepted_within_the_cap(
    bytes: Seq<u8>,
    name: Seq<char>,
    filename: Seq<char>,
    cap: u64,
    source_label: Seq<char>,
    limit: u64,
)
    requires
        limit == if cap < u64::MAX {
            cap + 1
        } else {
            u64::MAX as int
        },
    ensures
        declared_size(bytes, name) is None ==> entry_data(bytes, name, cap) is None
            && read_warnings(bytes, name, filename, cap, source_label).len() == 0,
        declared_size(bytes, name) is Some ==> match entry_read(bytes, name, limit) {
            None => {
                &&& entry_data(bytes, name, cap) is None
                &&& read_warnings(bytes, name, filename, cap, source_label) == seq![
                    WarningText {
                        source: source_label + "_embedded_objects"@,
                        message: "Failed to read embedded file '"@ + filename + "'"@,
                    },
                ]
            },
            Some(data) => {
                &&& 0 < data.len() <= cap ==> entry_data(bytes, name, cap) == Some(data)
                &&& data.len() == 0 || data.len() > cap ==> entry_data(bytes, name, cap) is None
                &&& data.len() <= cap ==> read_warnings(
                    bytes,
                    name,
                    filename,
                    cap,
                    source_label,
                ).len() == 0
                &&& data.len() > cap ==> read_warnings(bytes, name, filename, cap, source_label)
                    == seq![
                    WarningText {
                        source: source_label + "_embedded_objects"@,
                        message: "Skipped embedded file '"@ + filename + "': size "@ + decimal(
                            cap as nat + 1,
                        ) + " bytes exceeds cap "@ + decimal(cap as nat) + " bytes"@,
                    },
                ]
            },
        },
{
}

/// Law: entries over the limit are counted in one warning, and there is none where the limit holds.
pub proof fn law_files_over_the_limit_are_counted(
    found: nat,
    limit: nat,
    prefix: Seq<char>,
    source_label: Seq<char>,
)
    ensures
        found <= limit ==> too_many_warnings(found, limit, prefix, source_label).len() == 0,
        found > limit ==> too_many_warnings(found, limit, prefix, source_label) == seq![
            WarningText {
                source: source_label + "_embedded_objects"@,
                message: "Skipped "@ + decimal((found - limit) as nat)
                    + " embedded object(s) under '"@ + prefix + "': max_files_in_archive ("@
                    + decimal(limit) + ") reached"@,
            },
        ],
{
}

/// Law: a buffer is read byte for byte, and a missing one is missing.
pub proof fn law_buffers_are_read_as_they_are(data: Vec<u8>)
    ensures
        bytes_of(Some(data)) == Some(data@),
        bytes_of(None) is None,
{
}

} // verus!
