use komi_core::analysis::dictionary::Dictionary;

#[test]
fn registry_entry_starts_empty() {
    let d = Dictionary::new(
        &"words".to_string(),
        &"0.1".to_string(),
        &"anon".to_string(),
        &"a word list".to_string(),
        &"MIT".to_string(),
        &"http://example.invalid".to_string(),
    );
    assert_eq!(d.name, "words");
    assert_eq!(d.version, "0.1");
    assert_eq!(d.author, "anon");
    assert_eq!(d.description, "a word list");
    assert_eq!(d.license, "MIT");
    assert_eq!(d.url, "http://example.invalid");
    assert!(d.entries.is_empty());
}
