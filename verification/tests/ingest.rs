use std::io::Write;

use komi_core::dictionary::ingest::{unrecognized_members, DecodeCause, IngestError};
use komi_core::dictionary::yomichan::{Dictionary, KanjiMetaMode, TermMetaMode};

fn make_zip(entries: &[(&str, &[u8])]) -> Vec<u8> {
    let cursor = std::io::Cursor::new(Vec::new());
    let mut writer = zip::ZipWriter::new(cursor);
    let options = zip::write::SimpleFileOptions::default();
    for (name, content) in entries {
        writer.start_file(*name, options).unwrap();
        writer.write_all(content).unwrap();
    }
    writer.finish().unwrap().into_inner()
}

const MANIFEST: &[u8] = b"{\"title\":\"T\",\"revision\":\"1\"}";

#[test]
fn example_archive_ingests() {
    let bytes = make_zip(&[
        ("index.json", MANIFEST),
        (
            "term_bank_1.json",
            "[[\"日本\",\"にほん\",\"\",\"\",0,[\"Japan\"],1,\"\"]]".as_bytes(),
        ),
    ]);
    let d = Dictionary::new(&bytes).unwrap();
    assert_eq!(d.index.title, "T");
    assert_eq!(d.index.revision, "1");
    assert_eq!(d.terms.len(), 1);
    assert_eq!(d.terms[0].expression, "日本");
    assert_eq!(d.terms[0].reading, "にほん");
    assert_eq!(d.terms[0].score, 0);
    assert_eq!(d.terms[0].glossary, vec!["Japan".to_string()]);
    assert_eq!(d.terms[0].sequence, 1);
    assert_eq!(d.terms[0].definition_tags.as_vec(), Vec::<String>::new());
    assert_eq!(d.kanji.len(), 0);
    assert_eq!(d.tag_meta.len(), 0);
}

#[test]
fn shards_of_one_role_merge_in_order() {
    let bytes = make_zip(&[
        ("index.json", MANIFEST),
        (
            "term_bank_1.json",
            b"[[\"a\",\"\",\"\",\"\",1,[\"first\"],1,\"\"],[\"b\",\"\",\"\",\"\",2,[\"second\"],2,\"\"]]",
        ),
        (
            "term_bank_2.json",
            b"[[\"c\",\"\",\"\",\"\",3,[\"third\"],3,\"\"],[\"d\",\"\",\"\",\"\",4,[\"fourth\"],4,\"\"]]",
        ),
    ]);
    let d = Dictionary::new(&bytes).unwrap();
    assert_eq!(d.terms.len(), 4);
    let order: Vec<&str> = d.terms.iter().map(|t| t.expression.as_str()).collect();
    assert_eq!(order, vec!["a", "b", "c", "d"]);
}

#[test]
fn missing_manifest_fails_with_manifest_missing() {
    let bytes = make_zip(&[(
        "term_bank_1.json",
        b"[[\"a\",\"\",\"\",\"\",1,[\"x\"],1,\"\"]]",
    )]);
    let r = Dictionary::new(&bytes);
    assert_eq!(r.unwrap_err(), IngestError::ManifestMissing);
}

#[test]
fn invalid_json_shard_aborts_and_names_the_member() {
    let bytes = make_zip(&[
        ("index.json", MANIFEST),
        ("term_bank_1.json", b"[[\"a\",\"\",\"\",\"\",1,[\"x\"],1,\"\"]]"),
        ("kanji_bank_1.json", b"{{{ not json"),
    ]);
    let r = Dictionary::new(&bytes);
    assert_eq!(
        r.unwrap_err(),
        IngestError::Decode {
            member: "kanji_bank_1.json".to_string(),
            cause: DecodeCause::MalformedJson,
        }
    );
}

#[test]
fn schema_mismatch_aborts_with_schema_cause() {
    let bytes = make_zip(&[
        ("index.json", MANIFEST),
        ("term_bank_1.json", b"[[\"a\",\"\"]]"),
    ]);
    let r = Dictionary::new(&bytes);
    assert_eq!(
        r.unwrap_err(),
        IngestError::Decode {
            member: "term_bank_1.json".to_string(),
            cause: DecodeCause::Schema,
        }
    );
}

#[test]
fn out_of_range_score_is_a_schema_error() {
    let bytes = make_zip(&[
        ("index.json", MANIFEST),
        (
            "term_bank_1.json",
            b"[[\"a\",\"\",\"\",\"\",70000,[\"x\"],1,\"\"]]",
        ),
    ]);
    let r = Dictionary::new(&bytes);
    assert_eq!(
        r.unwrap_err(),
        IngestError::Decode {
            member: "term_bank_1.json".to_string(),
            cause: DecodeCause::Schema,
        }
    );
}

#[test]
fn unreadable_member_content_aborts_with_unreadable() {
    let marker = b"[[\"UNIQUEMARKER\",\"\",\"\",\"\",1,[\"x\"],1,\"\"]]";
    let cursor = std::io::Cursor::new(Vec::new());
    let mut writer = zip::ZipWriter::new(cursor);
    let stored = zip::write::SimpleFileOptions::default()
        .compression_method(zip::CompressionMethod::Stored);
    writer.start_file("index.json", stored).unwrap();
    writer.write_all(MANIFEST).unwrap();
    writer.start_file("term_bank_1.json", stored).unwrap();
    writer.write_all(marker).unwrap();
    let mut bytes = writer.finish().unwrap().into_inner();
    // flip one byte inside the stored member's data so that its checksum no
    // longer matches and reading the content fails
    let pos = bytes
        .windows(b"UNIQUEMARKER".len())
        .position(|w| w == b"UNIQUEMARKER")
        .unwrap();
    bytes[pos] = b'X';
    let r = Dictionary::new(&bytes);
    assert_eq!(
        r.unwrap_err(),
        IngestError::Decode {
            member: "term_bank_1.json".to_string(),
            cause: DecodeCause::Unreadable,
        }
    );
}

#[test]
fn non_archive_bytes_fail_with_archive_open() {
    let r = Dictionary::new(b"this is not a zip archive");
    assert_eq!(r.unwrap_err(), IngestError::ArchiveOpen);
}

#[test]
fn unknown_and_non_json_members_are_ignored() {
    let bytes = make_zip(&[
        ("cover.png", b"\xFF\xD8\xFF\xE0 not utf8 \x00\x01"),
        ("notes.json", b"[\"whatever shape\"]"),
        ("index.json", MANIFEST),
    ]);
    let d = Dictionary::new(&bytes).unwrap();
    assert_eq!(d.index.title, "T");
    assert_eq!(d.terms.len(), 0);
}

#[test]
fn unrecognized_json_members_are_listed_for_warnings() {
    let bytes = make_zip(&[
        ("cover.png", b"binary payload".as_slice()),
        ("notes.json", b"[]"),
        ("index.json", MANIFEST),
        ("extra_bank_1.json", b"{}"),
    ]);
    let names = unrecognized_members(&bytes).unwrap();
    assert_eq!(
        names,
        vec!["notes.json".to_string(), "extra_bank_1.json".to_string()]
    );
    assert!(unrecognized_members(b"not a zip").is_none());
}

#[test]
fn ingesting_twice_yields_equal_aggregates() {
    let bytes = make_zip(&[
        ("index.json", MANIFEST),
        (
            "term_bank_1.json",
            b"[[\"a\",\"r\",\"t1 t2\",\"v1\",-5,[\"g1\",\"g2\"],9,\"p\"]]",
        ),
        ("kanji_bank_1.json", b"[[\"x\",\"on\",\"kun\",\"tg\",[\"m\"],{\"grade\":\"1\"}]]"),
        ("term_meta_bank_1.json", b"[[\"a\",\"freq\",12],[\"b\",\"pitch\",{\"p\":[1,2]}]]"),
        ("kanji_meta_bank_1.json", b"[[\"x\",\"freq\",3]]"),
        ("tag_bank_1.json", b"[[\"n\",\"pos\",-2,\"noun\",0]]"),
    ]);
    let d1 = Dictionary::new(&bytes).unwrap();
    let d2 = Dictionary::new(&bytes).unwrap();
    assert_eq!(d1.index, d2.index);
    assert_eq!(d1.terms, d2.terms);
    assert_eq!(d1.kanji, d2.kanji);
    assert_eq!(d1.term_meta, d2.term_meta);
    assert_eq!(d1.kanji_meta, d2.kanji_meta);
    assert_eq!(d1.tag_meta, d2.tag_meta);
}

#[test]
fn metadata_payloads_resolve_numeric_first() {
    let bytes = make_zip(&[
        ("index.json", MANIFEST),
        (
            "term_meta_bank_1.json",
            b"[[\"a\",\"freq\",12],[\"b\",\"pitch\",{\"p\":[1,2]}],[\"c\",\"freq\",0]]",
        ),
        ("kanji_meta_bank_1.json", b"[[\"x\",\"freq\",7],[\"y\",\"pitch\",[1,\"two\"]]]"),
    ]);
    let d = Dictionary::new(&bytes).unwrap();
    assert_eq!(d.term_meta.len(), 3);
    assert_eq!(d.term_meta[0].character, "a");
    assert_eq!(d.term_meta[0].mode, "freq");
    assert_eq!(d.term_meta[0].data, TermMetaMode::Freq(12));
    assert_eq!(d.term_meta[2].data, TermMetaMode::Freq(0));
    let expected: serde_json::Value = serde_json::from_str("{\"p\":[1,2]}").unwrap();
    match &d.term_meta[1].data {
        TermMetaMode::Pitch(v) => {
            // the structured payload is carried unchanged: re-encoding it
            // yields the original document
            assert_eq!(*v, expected);
            let encoded = serde_json::to_string(v).unwrap();
            let reparsed: serde_json::Value = serde_json::from_str(&encoded).unwrap();
            assert_eq!(reparsed, *v);
        }
        other => panic!("expected a structured payload, got {:?}", other),
    }
    assert_eq!(d.kanji_meta[0].data, KanjiMetaMode::Freq(7));
    assert!(matches!(d.kanji_meta[1].data, KanjiMetaMode::Pitch(_)));
}

#[test]
fn kanji_rows_decode_with_stats_and_readings() {
    let bytes = make_zip(&[
        ("index.json", MANIFEST),
        (
            "kanji_bank_1.json",
            "[[\"日\",\"ニチ ジツ\",\"ひ -び\",\"jouyou\",[\"day\",\"sun\"],{\"grade\":\"1\",\"strokes\":\"4\"}]]"
                .as_bytes(),
        ),
    ]);
    let d = Dictionary::new(&bytes).unwrap();
    assert_eq!(d.kanji.len(), 1);
    let k = &d.kanji[0];
    assert_eq!(k.character, "日");
    assert_eq!(k.onyomi.as_vec(), vec!["ニチ".to_string(), "ジツ".to_string()]);
    assert_eq!(k.kunyomi.as_vec(), vec!["ひ".to_string(), "-び".to_string()]);
    assert_eq!(k.tags.as_vec(), vec!["jouyou".to_string()]);
    assert_eq!(k.meanings, vec!["day".to_string(), "sun".to_string()]);
    assert_eq!(
        k.stats.0,
        vec![
            ("grade".to_string(), "1".to_string()),
            ("strokes".to_string(), "4".to_string())
        ]
    );
}

#[test]
fn tag_rows_decode() {
    let bytes = make_zip(&[
        ("index.json", MANIFEST),
        ("tag_bank_1.json", b"[[\"news\",\"frequent\",-2,\"appears in news\",3]]"),
    ]);
    let d = Dictionary::new(&bytes).unwrap();
    assert_eq!(d.tag_meta.len(), 1);
    assert_eq!(d.tag_meta[0].name, "news");
    assert_eq!(d.tag_meta[0].category, "frequent");
    assert_eq!(d.tag_meta[0].order, -2);
    assert_eq!(d.tag_meta[0].notes, "appears in news");
    assert_eq!(d.tag_meta[0].score, 3);
}

#[test]
fn manifest_fields_and_alias_normalization() {
    let full = b"{\"title\":\"D\",\"revision\":\"r2\",\"sequenced\":true,\"version\":3,\
\"author\":\"me\",\"url\":\"http://example.invalid\",\"description\":\"desc\",\
\"attribution\":\"attr\",\"frequencyMode\":\"rank-based\"}";
    let bytes = make_zip(&[("index.json", full.as_slice())]);
    let d = Dictionary::new(&bytes).unwrap();
    assert_eq!(d.index.title, "D");
    assert_eq!(d.index.revision, "r2");
    assert_eq!(d.index.sequenced, Some(true));
    assert_eq!(d.index.format, Some(3));
    assert_eq!(d.index.author.as_deref(), Some("me"));
    assert_eq!(d.index.url.as_deref(), Some("http://example.invalid"));
    assert_eq!(d.index.description.as_deref(), Some("desc"));
    assert_eq!(d.index.attribution.as_deref(), Some("attr"));
    assert_eq!(d.index.frequency_mode.as_deref(), Some("rank-based"));

    let both = b"{\"title\":\"D\",\"revision\":\"r\",\"format\":2,\"version\":3}";
    let bytes = make_zip(&[("index.json", both.as_slice())]);
    let d = Dictionary::new(&bytes).unwrap();
    assert_eq!(d.index.format, Some(2));

    let neither = b"{\"title\":\"D\",\"revision\":\"r\"}";
    let bytes = make_zip(&[("index.json", neither.as_slice())]);
    let d = Dictionary::new(&bytes).unwrap();
    assert_eq!(d.index.format, None);
}

#[test]
fn manifest_missing_title_is_a_schema_error() {
    let bytes = make_zip(&[("index.json", b"{\"revision\":\"1\"}".as_slice())]);
    let r = Dictionary::new(&bytes);
    assert_eq!(
        r.unwrap_err(),
        IngestError::Decode {
            member: "index.json".to_string(),
            cause: DecodeCause::Schema,
        }
    );
}

#[test]
fn summary_counts_non_empty_collections_only() {
    let bytes = make_zip(&[
        ("index.json", MANIFEST),
        (
            "term_bank_1.json",
            b"[[\"a\",\"\",\"\",\"\",1,[\"x\"],1,\"\"],[\"b\",\"\",\"\",\"\",1,[\"y\"],2,\"\"]]",
        ),
        ("tag_bank_1.json", b"[[\"n\",\"pos\",0,\"\",0]]"),
    ]);
    let d = Dictionary::new(&bytes).unwrap();
    let summary = d.summary();
    assert_eq!(
        summary,
        vec![("terms".to_string(), 2usize), ("tags".to_string(), 1usize)]
    );
}
