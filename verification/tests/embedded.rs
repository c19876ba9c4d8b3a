use std::io::{Cursor, Write};
use xberg::config::{ExtractionConfig, JupyterCellRendering, SecurityLimits};
use xberg::embedded::{EmbeddedExtraction, Request};
use xberg::mime::{choose_mime, guess_from_file_name};
use xberg::ole::{extract_ole_embedded_object, identify_ole_object, is_ole_binary, OleObject};
use xberg::package::{
    capacity_hint, clamp_declared_size, collect_embedding_names, embedded_file_capacity_cap,
    embedded_objects_warning, enforce_max_files_in_archive, read_embedded_entry_bytes,
};
use xberg::text::{join, strip_prefix, to_decimal};

const PREFIX: &str = "word/embeddings/";

const LIMITS: SecurityLimits =
    SecurityLimits { max_archive_size: 1_000_000, max_files_in_archive: 100 };

fn config() -> ExtractionConfig<u8, &'static str> {
    ExtractionConfig {
        output_format: 7,
        include_document_structure: true,
        jupyter_cell_rendering: JupyterCellRendering::Source,
        max_archive_depth: 2,
        max_embedded_file_bytes: Some(100_000),
        security_limits: None,
        rest: "rest",
    }
}

fn zip_of(entries: &[(&str, &[u8])]) -> Vec<u8> {
    let mut writer = zip::ZipWriter::new(Cursor::new(Vec::new()));
    let options = zip::write::SimpleFileOptions::default();
    for (name, data) in entries {
        if name.ends_with('/') {
            writer.add_directory(*name, options).unwrap();
        } else {
            writer.start_file(*name, options).unwrap();
            writer.write_all(data).unwrap();
        }
    }
    writer.finish().unwrap().into_inner()
}

fn ole_of(streams: &[(&str, &[u8])]) -> Vec<u8> {
    let mut file = cfb::CompoundFile::create(Cursor::new(Vec::new())).unwrap();
    for (name, data) in streams {
        file.create_stream(name).unwrap().write_all(data).unwrap();
    }
    file.flush().unwrap();
    file.into_inner().into_inner()
}

/// Texts are Markdown, bytes that start with `%PDF` are PDF, nothing else is known.
fn detect(data: &[u8]) -> Option<String> {
    if data.starts_with(b"%PDF") {
        Some("application/pdf".to_string())
    } else if data.starts_with(b"#") {
        Some("text/markdown".to_string())
    } else if data.starts_with(b"?") {
        Some("application/octet-stream".to_string())
    } else {
        None
    }
}

fn extract(data: &[u8], mime: &str) -> Result<String, String> {
    if data.ends_with(b"!") {
        Err("damaged".to_string())
    } else {
        Ok(format!("{} bytes of {}", data.len(), mime))
    }
}

struct Results {
    children: Vec<(String, String, String)>,
    warnings: Vec<String>,
    depths: Vec<usize>,
    questions: usize,
}

fn run(bytes: &[u8], config: &ExtractionConfig<u8, &'static str>, limits: SecurityLimits) -> Results {
    enum Answer {
        Mime(Option<String>),
        Document(Result<String, String>),
    }
    let mut depths = Vec::new();
    let mut questions = 0;
    let mut extraction: EmbeddedExtraction<'_, u8, &'static str, String> =
        EmbeddedExtraction::start(bytes, PREFIX, "docx", config, limits);
    loop {
        let answer = match extraction.request() {
            Request::DetectMime(data) => Answer::Mime(detect(data)),
            Request::ExtractDocument { data, mime_type, config } => {
                depths.push(config.max_archive_depth);
                assert_eq!(config.output_format, 7);
                assert_eq!(config.rest, "rest");
                Answer::Document(extract(data, mime_type))
            }
            Request::Finished => break,
        };
        questions += 1;
        match answer {
            Answer::Mime(mime) => extraction.mime_detected(mime),
            Answer::Document(document) => extraction.document_extracted(document),
        }
    }
    let (children, warnings) = extraction.into_results();
    Results {
        children: children
            .into_iter()
            .map(|c| (c.path, c.mime_type, *c.result))
            .collect(),
        warnings: warnings
            .into_iter()
            .map(|w| {
                assert_eq!(w.source, "docx_embedded_objects");
                w.message
            })
            .collect(),
        depths,
        questions,
    }
}

fn child(path: &str, mime: &str, result: &str) -> (String, String, String) {
    (path.to_string(), mime.to_string(), result.to_string())
}

#[test]
fn embedded_files_are_extracted_in_order() {
    let bytes = zip_of(&[
        ("word/document.xml", b"# not embedded"),
        ("word/embeddings/", b""),
        ("word/embeddings/a.bin", b"%PDF-1.7"),
        ("word/embeddings/sub/b.png", b"neither"),
        ("other/word/embeddings/c.txt", b"# not below the prefix"),
        ("word/embeddings/d", b"# heading"),
    ]);
    let results = run(&bytes, &config(), LIMITS);
    assert_eq!(
        results.children,
        vec![
            child("a.bin", "application/pdf", "8 bytes of application/pdf"),
            child("sub/b.png", "image/png", "7 bytes of image/png"),
            child("d", "text/markdown", "9 bytes of text/markdown"),
        ]
    );
    assert!(results.warnings.is_empty());
    assert_eq!(results.depths, vec![1, 1, 1]);
}

#[test]
fn what_is_no_archive_gives_nothing() {
    let results = run(b"no archive", &config(), LIMITS);
    assert!(results.children.is_empty() && results.warnings.is_empty());
    let shallow = ExtractionConfig { max_archive_depth: 0, ..config() };
    let results = run(&zip_of(&[("word/document.xml", b"x")]), &shallow, LIMITS);
    assert!(results.children.is_empty() && results.warnings.is_empty());
}

#[test]
fn skipped_entries_are_explained() {
    let bytes = zip_of(&[
        ("word/embeddings/empty.txt", b""),
        ("word/embeddings/unknown.thing", b"mystery"),
        ("word/embeddings/noextension", b"mystery"),
        ("word/embeddings/octets.png", b"?"),
        ("word/embeddings/damaged.txt", b"text!"),
        ("word/embeddings/large.txt", &[b'x'; 11]),
        ("word/embeddings/fits.txt", &[b'x'; 10]),
    ]);
    let small = ExtractionConfig { max_embedded_file_bytes: Some(10), ..config() };
    let results = run(&bytes, &small, LIMITS);
    assert_eq!(
        results.warnings,
        vec![
            "Skipped embedded file 'unknown.thing': MIME type could not be determined",
            "Skipped embedded file 'noextension': MIME type could not be determined",
            "Skipped embedded file 'octets.png': MIME type could not be determined",
            "Failed to extract embedded 'damaged.txt': damaged",
            "Skipped embedded file 'large.txt': size 11 bytes exceeds cap 10 bytes",
        ]
    );
    assert_eq!(
        results.children,
        vec![child("fits.txt", "text/plain", "10 bytes of text/plain")]
    );
}

#[test]
fn too_many_files_are_cut_off() {
    let bytes = zip_of(&[
        ("word/embeddings/a.txt", b"a"),
        ("word/embeddings/b.txt", b"b"),
        ("word/embeddings/c.txt", b"c"),
    ]);
    let limited = ExtractionConfig {
        security_limits: Some(SecurityLimits { max_archive_size: 10, max_files_in_archive: 1 }),
        ..config()
    };
    let results = run(&bytes, &limited, LIMITS);
    assert_eq!(results.children.len(), 1);
    assert_eq!(results.questions, 2);
    assert_eq!(
        results.warnings,
        vec!["Skipped 2 embedded object(s) under 'word/embeddings/': max_files_in_archive (1) reached"]
    );

    let shallow = ExtractionConfig { max_archive_depth: 0, ..limited };
    let results = run(&bytes, &shallow, LIMITS);
    assert!(results.children.is_empty());
    assert_eq!(results.questions, 0);
    assert_eq!(
        results.warnings,
        vec![
            "Skipped 2 embedded object(s) under 'word/embeddings/': max_files_in_archive (1) reached",
            "Skipped 1 embedded object(s) under 'word/embeddings/': max_archive_depth reached",
        ]
    );
}

#[test]
fn ole_objects_are_unwrapped() {
    let package = ole_of(&[("Package", b"%PDF-1.4"), ("WordDocument", b"w")]);
    let opaque_package = ole_of(&[("Package", b"mystery")]);
    let empty_package = ole_of(&[("Package", b""), ("WordDocument", b"w")]);
    let word = ole_of(&[("WordDocument", b"w")]);
    let slides = ole_of(&[("PowerPoint Document", b"p")]);
    let book = ole_of(&[("Book", b"b")]);
    let unknown = ole_of(&[("Contents", b"c")]);
    let bytes = zip_of(&[
        ("word/embeddings/package.bin", &package),
        ("word/embeddings/opaque.pdf", &opaque_package),
        ("word/embeddings/empty.bin", &empty_package),
        ("word/embeddings/word.bin", &word),
        ("word/embeddings/slides.bin", &slides),
        ("word/embeddings/book.bin", &book),
        ("word/embeddings/unknown.doc", &unknown),
        ("word/embeddings/torn.doc", &word[..100]),
    ]);
    let results = run(&bytes, &config(), LIMITS);
    let size = |data: &[u8], mime: &str| format!("{} bytes of {}", data.len(), mime);
    assert_eq!(
        results.children,
        vec![
            child("package.bin", "application/pdf", "8 bytes of application/pdf"),
            child("word.bin", "application/msword", &size(&word, "application/msword")),
            child(
                "slides.bin",
                "application/vnd.ms-powerpoint",
                &size(&slides, "application/vnd.ms-powerpoint")
            ),
            child(
                "book.bin",
                "application/vnd.ms-excel",
                &size(&book, "application/vnd.ms-excel")
            ),
        ]
    );
    let skipped =
        |name: &str| format!("Skipped OLE compound file '{}': format identification not supported", name);
    assert_eq!(
        results.warnings,
        vec![
            skipped("opaque.pdf"),
            skipped("empty.bin"),
            skipped("unknown.doc"),
            skipped("torn.doc"),
        ]
    );
}

#[test]
fn a_damaged_package_is_reported_as_an_ole_object() {
    let package = ole_of(&[("Package", b"# broken!")]);
    let bytes = zip_of(&[("word/embeddings/o.bin", &package)]);
    let results = run(&bytes, &config(), LIMITS);
    assert!(results.children.is_empty());
    assert_eq!(
        results.warnings,
        vec!["Failed to extract embedded OLE object 'o.bin': damaged"]
    );
}

#[test]
fn an_entry_with_a_wrong_checksum_is_reported() {
    let mut bytes = zip_of(&[("word/embeddings/a.txt", b"text")]);
    // The checksum of the only entry stands 16 bytes into its central directory record.
    let at = bytes.windows(4).position(|w| w == b"PK\x01\x02").unwrap();
    bytes[at + 16] ^= 0xFF;
    let results = run(&bytes, &config(), LIMITS);
    assert!(results.children.is_empty());
    assert_eq!(results.warnings, vec!["Failed to read embedded file 'a.txt'"]);
}

#[test]
fn a_forged_size_does_no_harm() {
    let mut bytes = zip_of(&[("word/embeddings/a.txt", b"text")]);
    // The uncompressed size stands 24 bytes into the central directory record.
    let at = bytes.windows(4).position(|w| w == b"PK\x01\x02").unwrap();
    bytes[at + 24..at + 28].copy_from_slice(&[0xFE, 0xFF, 0xFF, 0xFF]);
    let results = run(&bytes, &config(), LIMITS);
    assert_eq!(
        results.children,
        vec![child("a.txt", "text/plain", "4 bytes of text/plain")]
    );
    let mut archive = zip::ZipArchive::new(Cursor::new(bytes.as_slice())).unwrap();
    let mut warnings = Vec::new();
    let data = read_embedded_entry_bytes(
        &mut archive,
        "word/embeddings/a.txt",
        "a.txt",
        1 << 20,
        "docx",
        &mut warnings,
    );
    let data = data.unwrap();
    assert_eq!(data, b"text");
    assert!(data.capacity() <= 2 << 20);
    assert!(warnings.is_empty());
}

#[test]
fn an_unlimited_cap_needs_no_room() {
    let bytes = zip_of(&[("word/embeddings/a.txt", b"text")]);
    let mut archive = zip::ZipArchive::new(Cursor::new(bytes.as_slice())).unwrap();
    let mut warnings = Vec::new();
    let data = read_embedded_entry_bytes(
        &mut archive,
        "word/embeddings/a.txt",
        "a.txt",
        u64::MAX,
        "docx",
        &mut warnings,
    );
    assert_eq!(data.as_deref(), Some(b"text".as_slice()));
    let missing =
        read_embedded_entry_bytes(&mut archive, "absent", "absent", 9, "docx", &mut warnings);
    assert!(missing.is_none() && warnings.is_empty());
}

#[test]
fn names_are_collected_below_the_prefix() {
    let bytes = zip_of(&[
        ("ppt/embeddings/", b""),
        ("ppt/embeddings/x", b"1"),
        ("ppt/embeddingsy", b"2"),
        ("ppt/embeddings/é.bin", b"3"),
    ]);
    let mut archive = zip::ZipArchive::new(Cursor::new(bytes.as_slice())).unwrap();
    assert_eq!(
        collect_embedding_names(&mut archive, "ppt/embeddings/"),
        vec!["ppt/embeddings/x", "ppt/embeddings/é.bin"]
    );
    assert_eq!(collect_embedding_names(&mut archive, "").len(), 4);
}

#[test]
fn caps_and_clamps() {
    assert_eq!(capacity_hint(3, 5), 3);
    assert_eq!(capacity_hint(u64::MAX, 5), 5);
    assert_eq!(capacity_hint(u64::MAX, u64::MAX), 0);
    let limits = SecurityLimits { max_archive_size: 500, max_files_in_archive: 1 };
    assert_eq!(embedded_file_capacity_cap(&config(), &limits), 100_000);
    let off = ExtractionConfig { max_embedded_file_bytes: None, ..config() };
    assert_eq!(embedded_file_capacity_cap(&off, &limits), 500);
    assert_eq!(clamp_declared_size(10, 20), 10);
    assert_eq!(clamp_declared_size(20, 20), 20);
    assert_eq!(clamp_declared_size(u64::MAX, 20), 20);
}

#[test]
fn limits_that_are_not_reached_change_nothing() {
    let mut names = vec!["a".to_string(), "b".to_string()];
    let mut warnings = vec![embedded_objects_warning("pptx", "earlier".to_string())];
    enforce_max_files_in_archive(&mut names, 2, PREFIX, "pptx", &mut warnings);
    assert_eq!(names.len(), 2);
    assert_eq!(warnings.len(), 1);
    assert_eq!(warnings[0].source, "pptx_embedded_objects");
    enforce_max_files_in_archive(&mut names, 0, PREFIX, "pptx", &mut warnings);
    assert!(names.is_empty());
    assert_eq!(warnings.len(), 2);
}

#[test]
fn extensions_follow_the_last_dot_of_the_file_name() {
    let pdf = Some("application/pdf".to_string());
    for path in ["a.pdf", "a.tar.pdf", ".hidden.pdf", "..pdf", "a.txt/b.pdf", "a.pdf/", "a.pdf/."] {
        assert_eq!(guess_from_file_name(path), pdf, "{:?}", path);
    }
    for path in ["", "pdf", ".pdf", "a.pdf.", "a.pdf/b", "a.pdf/..", "..", "a/.pdf"] {
        assert_eq!(guess_from_file_name(path), None, "{:?}", path);
    }
}

#[test]
fn extensions_are_those_of_the_platform() {
    for path in ["a.pdf", "a.pdf\\.", "a.pdf\\b", "a\\b.pdf", "c:.pdf", "//a/b.pdf", "//a/b.pdf/c.txt"] {
        let extension = std::path::Path::new(path).extension().and_then(|e| e.to_str());
        let guess = extension.and_then(|e| mime_guess::from_ext(e).first());
        assert_eq!(guess_from_file_name(path), guess.map(|m| m.to_string()), "{:?}", path);
    }
}

#[test]
fn file_names_suggest_types() {
    assert_eq!(guess_from_file_name("a.PDF").as_deref(), Some("application/pdf"));
    assert_eq!(guess_from_file_name("a.").as_deref(), None);
    assert_eq!(guess_from_file_name("a").as_deref(), None);
    assert_eq!(guess_from_file_name("a.no-such-extension").as_deref(), None);
}

#[test]
fn a_detected_type_goes_before_a_guessed_one() {
    let text = |s: &str| Some(s.to_string());
    assert_eq!(choose_mime(text("a/b"), text("c/d")), text("a/b"));
    assert_eq!(choose_mime(None, text("c/d")), text("c/d"));
    assert_eq!(choose_mime(None, None), None);
    assert_eq!(choose_mime(text("application/octet-stream"), text("c/d")), None);
    assert_eq!(choose_mime(None, text("application/octet-stream")), None);
}

#[test]
fn ole_objects_are_identified() {
    assert!(is_ole_binary(&[0xD0, 0xCF, 0x11, 0xE0]));
    assert!(!is_ole_binary(&[0xD0, 0xCF, 0x11]));
    assert!(!is_ole_binary(&[0xD0, 0xCF, 0x11, 0xE1, 0]));
    let book = ole_of(&[("Workbook", b"b")]);
    assert!(is_ole_binary(&book));
    match identify_ole_object(&book) {
        OleObject::Legacy(data, mime) => {
            assert_eq!(data, book);
            assert_eq!(mime, "application/vnd.ms-excel");
        }
        other => panic!("{:?}", other),
    }
    match identify_ole_object(&ole_of(&[("Package", b"inner")])) {
        OleObject::Package(data) => assert_eq!(data, b"inner"),
        other => panic!("{:?}", other),
    }
    assert!(matches!(identify_ole_object(b"no compound file"), OleObject::Unidentified));
}

#[test]
fn ole_objects_need_a_type_to_be_extracted_as() {
    let mime = || Some("a/b".to_string());
    assert_eq!(
        extract_ole_embedded_object(OleObject::Package(vec![1]), mime()),
        Some((vec![1], "a/b".to_string()))
    );
    assert_eq!(extract_ole_embedded_object(OleObject::Package(vec![1]), None), None);
    assert_eq!(
        extract_ole_embedded_object(OleObject::Legacy(vec![2], "c/d".to_string()), None),
        Some((vec![2], "c/d".to_string()))
    );
    assert_eq!(extract_ole_embedded_object(OleObject::Unidentified, mime()), None);
}

#[test]
fn text_building_blocks() {
    assert_eq!(to_decimal(0), "0");
    assert_eq!(to_decimal(1234567890), "1234567890");
    assert_eq!(to_decimal(u64::MAX), u64::MAX.to_string());
    assert_eq!(join("ab", "é"), "abé");
    assert_eq!(strip_prefix("häuser", "hä"), Some("user"));
    assert_eq!(strip_prefix("a", "ab"), None);
    assert_eq!(strip_prefix("ab", ""), Some("ab"));
}
