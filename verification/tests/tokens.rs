use komi_core::dictionary::yomichan::SpaceSeparatedValues;
use komi_core::text::split_tokens;

#[test]
fn empty_string_yields_no_tokens() {
    let v = SpaceSeparatedValues::from_text("");
    assert_eq!(v.as_vec(), Vec::<String>::new());
}

#[test]
fn blank_string_yields_no_tokens() {
    let v = SpaceSeparatedValues::from_text("   \t \n ");
    assert_eq!(v.as_vec(), Vec::<String>::new());
}

#[test]
fn single_token() {
    let v = SpaceSeparatedValues::from_text("v1");
    assert_eq!(v.as_vec(), vec!["v1".to_string()]);
}

#[test]
fn multiple_tokens_with_extra_spaces() {
    let v = SpaceSeparatedValues::from_text("  n  adj-i \t v5 ");
    assert_eq!(
        v.as_vec(),
        vec!["n".to_string(), "adj-i".to_string(), "v5".to_string()]
    );
}

#[test]
fn split_tokens_handles_wide_characters() {
    assert_eq!(
        split_tokens("よみ かた"),
        vec!["よみ".to_string(), "かた".to_string()]
    );
}

#[test]
fn unicode_whitespace_separates_tokens() {
    // ideographic space, no-break space, en quad
    assert_eq!(
        split_tokens("a\u{3000}b"),
        vec!["a".to_string(), "b".to_string()]
    );
    assert_eq!(
        split_tokens("ニチ\u{3000}ジツ\u{00A0}ひ\u{2000}び"),
        vec![
            "ニチ".to_string(),
            "ジツ".to_string(),
            "ひ".to_string(),
            "び".to_string()
        ]
    );
    // zero-width space has no White_Space property and stays in its token
    assert_eq!(split_tokens("a\u{200B}b"), vec!["a\u{200B}b".to_string()]);
}
