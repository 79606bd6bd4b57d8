use komi_core::classify::{classify, MemberRole};

#[test]
fn manifest_name_is_manifest() {
    assert_eq!(classify("index.json"), MemberRole::Manifest);
}

#[test]
fn shard_prefixes_classify_regardless_of_digits() {
    assert_eq!(classify("term_bank_1.json"), MemberRole::TermShard);
    assert_eq!(classify("term_bank_0123456789.json"), MemberRole::TermShard);
    assert_eq!(classify("kanji_bank_7.json"), MemberRole::KanjiShard);
    assert_eq!(classify("kanji_meta_bank_1.json"), MemberRole::KanjiMetaShard);
    assert_eq!(classify("term_meta_bank_42.json"), MemberRole::TermMetaShard);
    assert_eq!(classify("tag_bank_3.json"), MemberRole::TagShard);
}

#[test]
fn meta_prefixes_do_not_misclassify_as_plain_shards() {
    assert_ne!(classify("kanji_meta_bank_1.json"), MemberRole::KanjiShard);
    assert_ne!(classify("term_meta_bank_1.json"), MemberRole::TermShard);
}

#[test]
fn non_json_members_are_skipped() {
    assert_eq!(classify("cover.png"), MemberRole::Skipped);
    assert_eq!(classify("README"), MemberRole::Skipped);
    assert_eq!(classify("term_bank_1.json.bak"), MemberRole::Skipped);
}

#[test]
fn unknown_json_members_are_unrecognized() {
    assert_eq!(classify("notes.json"), MemberRole::Unrecognized);
    assert_eq!(classify("index2.json"), MemberRole::Unrecognized);
    assert_eq!(classify("bank_1.json"), MemberRole::Unrecognized);
    assert_eq!(classify(".json"), MemberRole::Unrecognized);
}
