//! MIME types of embedded files: what content detection says, and what the file name suggests.

use crate::text::text_of;
use vstd::prelude::*;

verus! {

/// The MIME type that says nothing about a file.
pub const OCTET_STREAM: &'static str = "application/octet-stream";

/// The position just after the last `separator` of `text`, zero where there is none.
pub open spec fn after_last(text: Seq<char>, separator: char) -> int
    decreases text.len(),
{
    if text.len() == 0 {
        0
    } else if text.last() == separator {
        text.len() as int
    } else {
        after_last(text.drop_last(), separator)
    }
}

/// The last component of a `/`-separated path. Trailing separators and trailing `.` components
/// do not count; a path that is empty or ends in `..` has no file name, nor has `.` alone.
pub open spec fn file_name(path: Seq<char>) -> Option<Seq<char>>
    decreases path.len(),
{
    let start = after_last(path, '/');
    let name = path.skip(start);
    if path.len() == 0 {
        None
    } else if path.last() == '/' {
        file_name(path.drop_last())
    } else if name == seq!['.', '.'] {
        None
    } else if name == seq!['.'] {
        if 0 < start < path.len() {
            file_name(path.take(start))
        } else {
            None
        }
    } else {
        Some(name)
    }
}

/// A path that every platform reads alike: `/` separates its components, and nothing else in it
/// could be taken for a separator, a drive or a share.
pub open spec fn portable(path: Seq<char>) -> bool {
    &&& !path.contains('\\')
    &&& !path.contains(':')
    &&& !(path.len() >= 2 && path[0] == '/' && path[1] == '/')
}

/// The part of the file name after its last dot. A file name without a dot, or with none but a
/// leading one, has no extension.
pub open spec fn dotted_extension(path: Seq<char>) -> Option<Seq<char>> {
    match file_name(path) {
        Some(name) => if after_last(name, '.') > 1 {
            Some(name.skip(after_last(name, '.')))
        } else {
            None
        },
        None => None,
    }
}

/// The extension that the platform finds in a path which platforms read differently.
pub uninterp spec fn platform_extension(path: Seq<char>) -> Option<Seq<char>>;

/// The extension of a path, as the platform reads it.
pub open spec fn extension(path: Seq<char>) -> Option<Seq<char>> {
    if portable(path) {
        dotted_extension(path)
    } else {
        platform_extension(path)
    }
}

/// `std::path::Path::extension` of a path written as text. In a path that every platform reads
/// alike it is what follows the last dot of the last component, where that dot does not lead it;
/// repeated and trailing separators and `.` components do not count, and after `..` there is none.
/// In any other path it is what the platform that the crate is built for makes of the text alone.
#[verifier::external_body]
fn path_extension(path: &str) -> (r: Option<String>)
    ensures
        text_of(r) == if portable(path@) {
            dotted_extension(path@)
        } else {
            platform_extension(path@)
        },
{
    Some(std::path::Path::new(path).extension()?.to_str()?.to_string())
}

/// The MIME type that `mime_guess` lists first for a file extension.
pub uninterp spec fn mime_for_extension(ext: Seq<char>) -> Option<Seq<char>>;

/// `mime_guess::from_ext`, with `MimeGuess::first` of its result as text. The guess comes from a
/// static table and depends on the extension alone; an empty extension has none.
#[verifier::external_body]
fn first_guess(ext: &str) -> (r: Option<String>)
    ensures
        text_of(r) == mime_for_extension(ext@),
        ext@.len() == 0 ==> r is None,
{
    match mime_guess::from_ext(ext).first() {
        Some(mime) => Some(mime.to_string()),
        None => None,
    }
}

/// The MIME type that the extension of a file name suggests.
pub open spec fn mime_for_file_name(filename: Seq<char>) -> Option<Seq<char>> {
    match extension(filename) {
        Some(ext) => mime_for_extension(ext),
        None => None,
    }
}

/// The MIME type that the extension of `filename` suggests, if any.
pub fn guess_from_file_name(filename: &str) -> (r: Option<String>)
    ensures
        text_of(r) == mime_for_file_name(filename@),
        extension(filename@) matches Some(ext) ==> text_of(r) == mime_for_extension(ext),
        extension(filename@) is None ==> r is None,
{
    match path_extension(filename) {
        Some(ext) => first_guess(ext.as_str()),
        None => None,
    }
}

/// The usable one of the MIME type detected from the content and the one guessed from the file
/// name: the detected one goes first, and one that says nothing about the file is not usable.
pub open spec fn usable_mime(detected: Option<Seq<char>>, guessed: Option<Seq<char>>) -> Option<
    Seq<char>,
> {
    let candidate = if detected is Some {
        detected
    } else {
        guessed
    };
    if candidate == Some(OCTET_STREAM@) {
        None
    } else {
        candidate
    }
}

/// The usable one of a detected and a guessed MIME type.
pub fn choose_mime(detected: Option<String>, guessed: Option<String>) -> (r: Option<String>)
    ensures
        text_of(r) == usable_mime(text_of(detected), text_of(guessed)),
        detected matches Some(mime) ==> if mime@ == "application/octet-stream"@ {
            r is None
        } else {
            r matches Some(chosen) && chosen@ == mime@
        },
        detected is None ==> (guessed matches Some(mime) ==> if mime@
            == "application/octet-stream"@ {
            r is None
        } else {
            r matches Some(chosen) && chosen@ == mime@
        }),
        detected is None && guessed is None ==> r is None,
{
    let candidate: Option<String> = match detected {
        Some(mime) => Some(mime),
        None => guessed,
    };
    match candidate {
        Some(mime) => if mime == OCTET_STREAM.to_string() {
            None
        } else {
            Some(mime)
        },
        None => None,
    }
}

/// Law: a MIME type detected from the content decides alone, whatever the file name suggests. One
/// that says nothing about the file is as good as none, and never makes the name count.
pub proof fn law_detected_type_decides(
    mime: Seq<char>,
    guessed: Option<Seq<char>>,
    other: Option<Seq<char>>,
)
    ensures
        usable_mime(Some(mime), guessed) == usable_mime(Some(mime), other),
        mime != "application/octet-stream"@ ==> usable_mime(Some(mime), guessed) == Some(mime),
        usable_mime(Some("application/octet-stream"@), guessed) is None,
{
}

/// Law: without a detected MIME type the file name decides just as a detected one would.
pub proof fn law_guessed_type_stands_in(mime: Seq<char>)
    ensures
        mime != "application/octet-stream"@ ==> usable_mime(None, Some(mime)) == Some(mime),
        usable_mime(None, Some("application/octet-stream"@)) is None,
        usable_mime(None, None) is None,
{
}

proof fn lemma_after_the_only(before: Seq<char>, separator: char, after: Seq<char>)
    requires
        !after.contains(separator),
    ensures
        after_last(before.push(separator) + after, separator) == before.len() + 1,
    decreases after.len(),
{
    let text = before.push(separator) + after;
    if after.len() == 0 {
        assert(text.last() == separator);
    } else {
        assert(text.last() == after.last());
        assert(after.contains(after.last()));
        assert(text.drop_last() == before.push(separator) + after.drop_last());
        assert forall|c: char| after.drop_last().contains(c) implies after.contains(c) by {
            let i = choose|i: int| 0 <= i < after.len() - 1 && after.drop_last()[i] == c;
            assert(after[i] == c);
        }
        lemma_after_the_only(before, separator, after.drop_last());
    }
}

proof fn lemma_after_none(text: Seq<char>, separator: char)
    requires
        !text.contains(separator),
    ensures
        after_last(text, separator) == 0,
    decreases text.len(),
{
    if text.len() > 0 {
        assert(text.contains(text.last()));
        assert forall|c: char| text.drop_last().contains(c) implies text.contains(c) by {
            let i = choose|i: int| 0 <= i < text.len() - 1 && text.drop_last()[i] == c;
            assert(text[i] == c);
        }
        lemma_after_none(text.drop_last(), separator);
    }
}

/// Law: what follows the last dot of a plain file name is its extension, and decides the MIME type
/// that the name suggests.
pub proof fn law_extension_follows_the_last_dot(stem: Seq<char>, ext: Seq<char>)
    requires
        stem.len() > 0,
        ext.len() > 0,
        !ext.contains('.'),
        forall|i: int|
            #![trigger stem[i]]
            0 <= i < stem.len() ==> stem[i] != '/' && stem[i] != '\\' && stem[i] != ':',
        forall|i: int|
            #![trigger ext[i]]
            0 <= i < ext.len() ==> ext[i] != '/' && ext[i] != '\\' && ext[i] != ':',
    ensures
        extension(stem.push('.') + ext) == Some(ext),
        mime_for_file_name(stem.push('.') + ext) == mime_for_extension(ext),
{
    let name = stem.push('.') + ext;
    assert(!name.contains('/') && !name.contains('\\') && !name.contains(':'));
    lemma_after_none(name, '/');
    assert(name.skip(0) == name);
    assert(name.last() == ext.last());
    assert(name.last() != '.') by {
        assert(ext.contains(ext.last()));
    }
    if name == seq!['.', '.'] || name == seq!['.'] {
        assert(name.last() == '.');
    }
    lemma_after_the_only(stem, '.', ext);
    assert(name.skip(stem.len() as int + 1) == ext);
}

} // verus!
