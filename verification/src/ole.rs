//! Unwrapping objects embedded as OLE compound files.

use crate::package::bytes_of;
use crate::text::text_of;
use std::io::{Cursor, Read};
use vstd::prelude::*;
use vstd::slice::slice_to_vec;

verus! {

/// An OLE compound file over a reader.
#[verifier::external_type_specification]
#[verifier::external_body]
#[verifier::reject_recursive_types(F)]
pub struct ExCompoundFile<F>(cfb::CompoundFile<F>);

/// The bytes that a compound file holds: those that it was opened on.
pub uninterp spec fn compound_bytes(file: cfb::CompoundFile<Cursor<&[u8]>>) -> Seq<u8>;

/// Whether `cfb` finds a compound file in these bytes.
pub uninterp spec fn is_compound(bytes: Seq<u8>) -> bool;

/// Whether the root of the compound file holds a stream or storage of that name.
pub uninterp spec fn has_object(bytes: Seq<u8>, name: Seq<char>) -> bool;

/// The data of the stream of that name; `None` where there is no such stream, or reading it
/// fails.
pub uninterp spec fn stream_data(bytes: Seq<u8>, name: Seq<char>) -> Option<Seq<u8>>;

/// A name that means one object directly under the root on every platform: it holds no path
/// separator and no drive letter.
pub open spec fn root_name(name: Seq<char>) -> bool {
    !name.contains('/') && !name.contains('\\') && !name.contains(':')
}

/// `cfb::CompoundFile::open` over the bytes. Whether they hold a compound file depends on the
/// bytes alone; the compound file goes on reading from those bytes.
#[verifier::external_body]
fn open_compound<'a>(bytes: &'a [u8]) -> (r: Option<cfb::CompoundFile<Cursor<&'a [u8]>>>)
    ensures
        r is Some <==> is_compound(bytes@),
        r matches Some(file) ==> compound_bytes(file) == bytes@,
{
    cfb::CompoundFile::open(Cursor::new(bytes)).ok()
}

/// `cfb::CompoundFile::exists`: whether a stream or storage of that name is there, which depends
/// on the bytes and the name alone.
#[verifier::external_body]
fn object_exists(file: &cfb::CompoundFile<Cursor<&[u8]>>, name: &str) -> (r: bool)
    requires
        root_name(name@),
    ensures
        r == has_object(compound_bytes(*file), name@),
{
    file.exists(name)
}

/// `std::io::Read::read_to_end` on a stream opened with `cfb::CompoundFile::open_stream`. What is
/// read, and whether opening or reading fails, depends on the bytes and the name alone. No sector
/// of the file is in a stream twice, so the data is no longer than the file. The compound file
/// still holds the same bytes afterwards.
#[verifier::external_body]
fn read_stream(file: &mut cfb::CompoundFile<Cursor<&[u8]>>, name: &str) -> (r: Option<Vec<u8>>)
    requires
        root_name(name@),
    ensures
        compound_bytes(*final(file)) == compound_bytes(*old(file)),
        bytes_of(r) == stream_data(compound_bytes(*old(file)), name@),
        r matches Some(data) ==> data@.len() <= compound_bytes(*old(file)).len(),
{
    let mut data = Vec::new();
    match file.open_stream(name).ok()?.read_to_end(&mut data) {
        Ok(_) => Some(data),
        Err(_) => None,
    }
}

/// The first bytes of every OLE compound file.
pub open spec fn ole_magic() -> Seq<u8> {
    seq![0xD0u8, 0xCFu8, 0x11u8, 0xE0u8]
}

/// Whether `data` starts as an OLE compound file does.
pub fn is_ole_binary(data: &[u8]) -> (r: bool)
    ensures
        r == ole_magic().is_prefix_of(data@),
        r <==> data@.len() >= 4 && data@[0] == 0xD0 && data@[1] == 0xCF && data@[2] == 0x11
            && data@[3] == 0xE0,
{
    data.len() >= 4 && data[0] == 0xD0 && data[1] == 0xCF && data[2] == 0x11 && data[3] == 0xE0
}

/// What an OLE compound file turns out to be.
#[derive(Debug)]
pub enum OleObject {
    /// A wrapper around a modern document, carried verbatim in the stream `Package`.
    Package(Vec<u8>),
    /// Itself a legacy document: the whole compound file, with its MIME type.
    Legacy(Vec<u8>, String),
    /// Neither; nothing can be unwrapped.
    Unidentified,
}

/// An OLE object with its data as bytes and its MIME type as text.
pub enum OleText {
    Package(Seq<u8>),
    Legacy(Seq<u8>, Seq<char>),
    Unidentified,
}

impl View for OleObject {
    type V = OleText;

    open spec fn view(&self) -> OleText {
        match *self {
            OleObject::Package(data) => OleText::Package(data@),
            OleObject::Legacy(data, mime) => OleText::Legacy(data@, mime@),
            OleObject::Unidentified => OleText::Unidentified,
        }
    }
}

/// The MIME type of the legacy document that a compound file is, by its root streams.
pub open spec fn legacy_mime(bytes: Seq<u8>) -> Option<Seq<char>> {
    if has_object(bytes, "WordDocument"@) {
        Some("application/msword"@)
    } else if has_object(bytes, "PowerPoint Document"@) {
        Some("application/vnd.ms-powerpoint"@)
    } else if has_object(bytes, "Workbook"@) || has_object(bytes, "Book"@) {
        Some("application/vnd.ms-excel"@)
    } else {
        None
    }
}

/// What the OLE compound file in these bytes turns out to be. A package goes before a legacy
/// document; one that is empty or cannot be read leaves the object unidentified.
pub open spec fn identified(bytes: Seq<u8>) -> OleText {
    if !is_compound(bytes) {
        OleText::Unidentified
    } else if has_object(bytes, "Package"@) {
        match stream_data(bytes, "Package"@) {
            Some(data) => if data.len() > 0 {
                OleText::Package(data)
            } else {
                OleText::Unidentified
            },
            None => OleText::Unidentified,
        }
    } else {
        match legacy_mime(bytes) {
            Some(mime) => OleText::Legacy(bytes, mime),
            None => OleText::Unidentified,
        }
    }
}

/// Find out what an OLE compound file holds.
pub fn identify_ole_object(data: &[u8]) -> (r: OleObject)
    ensures
        r@ == identified(data@),
        r matches OleObject::Package(package) ==> 0 < package@.len() <= data@.len(),
{
    proof {
        reveal_strlit("Package");
        reveal_strlit("WordDocument");
        reveal_strlit("PowerPoint Document");
        reveal_strlit("Workbook");
        reveal_strlit("Book");
    }
    let mut file: cfb::CompoundFile<Cursor<&[u8]>> = match open_compound(data) {
        Some(file) => file,
        None => return OleObject::Unidentified,
    };
    if object_exists(&file, "Package") {
        return match read_stream(&mut file, "Package") {
            Some(package) => if package.len() == 0 {
                OleObject::Unidentified
            } else {
                OleObject::Package(package)
            },
            None => OleObject::Unidentified,
        };
    }
    if object_exists(&file, "WordDocument") {
        OleObject::Legacy(slice_to_vec(data), "application/msword".to_string())
    } else if object_exists(&file, "PowerPoint Document") {
        OleObject::Legacy(slice_to_vec(data), "application/vnd.ms-powerpoint".to_string())
    } else if object_exists(&file, "Workbook") || object_exists(&file, "Book") {
        OleObject::Legacy(slice_to_vec(data), "application/vnd.ms-excel".to_string())
    } else {
        OleObject::Unidentified
    }
}

/// The document inside an OLE object, with its MIME type.
pub open spec fn unwrapped(object: OleText, package_mime: Option<Seq<char>>) -> Option<
    (Seq<u8>, Seq<char>),
> {
    match object {
        OleText::Package(package) => match package_mime {
            Some(mime) => Some((package, mime)),
            None => None,
        },
        OleText::Legacy(data, mime) => Some((data, mime)),
        OleText::Unidentified => None,
    }
}

/// Unwrap an embedded OLE object: the document to extract, with its MIME type.
///
/// A package is handed back as it is with `package_mime`, the MIME type detected from its bytes;
/// without one there is nothing to extract it as. A legacy document is the compound file itself,
/// handed back with the matching legacy MIME type for the extractors of those formats to parse.
/// `None` says that the object cannot be unwrapped, so that the caller can warn about it.
pub fn extract_ole_embedded_object(object: OleObject, package_mime: Option<String>) -> (r: Option<
    (Vec<u8>, String),
>)
    ensures
        match r {
            Some((inner, mime)) => unwrapped(object@, text_of(package_mime)) == Some(
                (inner@, mime@),
            ),
            None => unwrapped(object@, text_of(package_mime)) is None,
        },
        object matches OleObject::Package(package) ==> (package_mime matches Some(mime) ==> r
            == Some((package, mime))),
        object matches OleObject::Legacy(data, mime) ==> r == Some((data, mime)),
        object is Package && package_mime is None ==> r is None,
        object is Unidentified ==> r is None,
{
    match object {
        OleObject::Package(package) => match package_mime {
            Some(mime) => Some((package, mime)),
            None => None,
        },
        OleObject::Legacy(data, mime) => Some((data, mime)),
        OleObject::Unidentified => None,
    }
}

/// Law: without a package the root streams tell a legacy document, in this order and whatever else
/// the compound file holds: `WordDocument` a Word document, `PowerPoint Document` a presentation,
/// `Workbook` or `Book` a spreadsheet. The whole file is then the document; with none of them
/// there is no document.
pub proof fn law_root_streams_tell_the_legacy_document(bytes: Seq<u8>)
    requires
        is_compound(bytes),
        !has_object(bytes, "Package"@),
    ensures
        has_object(bytes, "WordDocument"@) ==> identified(bytes) == OleText::Legacy(
            bytes,
            "application/msword"@,
        ),
        !has_object(bytes, "WordDocument"@) && has_object(bytes, "PowerPoint Document"@)
            ==> identified(bytes) == OleText::Legacy(bytes, "application/vnd.ms-powerpoint"@),
        !has_object(bytes, "WordDocument"@) && !has_object(bytes, "PowerPoint Document"@) && (
        has_object(bytes, "Workbook"@) || has_object(bytes, "Book"@)) ==> identified(bytes)
            == OleText::Legacy(bytes, "application/vnd.ms-excel"@),
        identified(bytes) is Unidentified <==> !has_object(bytes, "WordDocument"@) && !has_object(
            bytes,
            "PowerPoint Document"@,
        ) && !has_object(bytes, "Workbook"@) && !has_object(bytes, "Book"@),
{
}

/// Law: compound files that agree on the five streams looked for are identified alike, as packages,
/// as legacy documents of the same type, or not at all.
pub proof fn law_other_streams_make_no_difference(bytes: Seq<u8>, other: Seq<u8>)
    requires
        is_compound(bytes) && is_compound(other),
        stream_data(bytes, "Package"@) == stream_data(other, "Package"@),
        has_object(bytes, "Package"@) == has_object(other, "Package"@),
        has_object(bytes, "WordDocument"@) == has_object(other, "WordDocument"@),
        has_object(bytes, "PowerPoint Document"@) == has_object(other, "PowerPoint Document"@),
        has_object(bytes, "Workbook"@) == has_object(other, "Workbook"@),
        has_object(bytes, "Book"@) == has_object(other, "Book"@),
    ensures
        match (identified(bytes), identified(other)) {
            (OleText::Package(first), OleText::Package(second)) => first == second,
            (OleText::Legacy(first, mime), OleText::Legacy(second, same)) => first == bytes
                && second == other && mime == same,
            (OleText::Unidentified, OleText::Unidentified) => true,
            _ => false,
        },
{
}

/// Law: a package goes before every legacy document and is carried verbatim. One that is empty or
/// cannot be read leaves nothing to identify, and so do bytes that are no compound file.
pub proof fn law_package_goes_first(bytes: Seq<u8>)
    ensures
        !is_compound(bytes) ==> identified(bytes) is Unidentified,
        is_compound(bytes) && has_object(bytes, "Package"@) ==> (match stream_data(
            bytes,
            "Package"@,
        ) {
            Some(data) => if data.len() > 0 {
                identified(bytes) == OleText::Package(data)
            } else {
                identified(bytes) is Unidentified
            },
            None => identified(bytes) is Unidentified,
        }),
        identified(bytes) is Package ==> is_compound(bytes) && has_object(bytes, "Package"@),
{
}

/// Law: unwrapping hands back a package under its detected MIME type and a legacy document under
/// its own, whatever was detected; without a type there is nothing to hand back.
pub proof fn law_unwrapping_keeps_the_data(
    data: Seq<u8>,
    mime: Seq<char>,
    detected: Option<Seq<char>>,
)
    ensures
        unwrapped(OleText::Package(data), Some(mime)) == Some((data, mime)),
        unwrapped(OleText::Package(data), None) is None,
        unwrapped(OleText::Legacy(data, mime), detected) == Some((data, mime)),
        unwrapped(OleText::Unidentified, detected) is None,
{
}

} // verus!
