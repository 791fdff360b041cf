use llm_client::logit_bias::{
    assemble_logit_bias, generate_bad_split_chars, generate_punctuation,
    generate_whitespace_chars,
};

fn lookup(table: &[(String, i64)], key: &str) -> Option<i64> {
    table.iter().find(|(k, _)| k == key).map(|(_, v)| *v)
}

#[test]
fn allowed_tokens_are_biased_up_and_removed_down() {
    let allowed = vec![
        "hello".to_string(),
        "there".to_string(),
        "general".to_string(),
    ];
    let removed = vec!["1".to_string(), "2".to_string(), "3".to_string()];
    let table = assemble_logit_bias(Some(allowed), Some(removed));
    assert_eq!(table.len(), 6);
    assert_eq!(lookup(&table, "hello"), Some(100));
    assert_eq!(lookup(&table, "there"), Some(100));
    assert_eq!(lookup(&table, "general"), Some(100));
    assert_eq!(lookup(&table, "1"), Some(-100));
    assert_eq!(lookup(&table, "2"), Some(-100));
    assert_eq!(lookup(&table, "3"), Some(-100));
}

#[test]
fn removal_wins_over_allowance_for_a_shared_token() {
    let allowed = vec!["hello".to_string(), "there".to_string()];
    let removed = vec!["there".to_string()];
    let table = assemble_logit_bias(Some(allowed), Some(removed));
    assert_eq!(table.len(), 2);
    assert_eq!(lookup(&table, "hello"), Some(100));
    assert_eq!(lookup(&table, "there"), Some(-100));
}

#[test]
fn duplicate_tokens_get_one_entry() {
    let allowed = vec!["a".to_string(), "a".to_string()];
    let removed = vec!["b".to_string(), "b".to_string()];
    let table = assemble_logit_bias(Some(allowed), Some(removed));
    assert_eq!(table.len(), 2);
    assert_eq!(lookup(&table, "a"), Some(100));
    assert_eq!(lookup(&table, "b"), Some(-100));
}

#[test]
fn absent_lists_give_an_empty_table() {
    let table = assemble_logit_bias(None, None);
    assert!(table.is_empty());
}

#[test]
fn only_removed_tokens_give_a_purely_negative_table() {
    let table = assemble_logit_bias(None, Some(vec!["x".to_string()]));
    assert_eq!(table.len(), 1);
    assert_eq!(lookup(&table, "x"), Some(-100));
}

#[test]
fn punctuation_list_is_exact() {
    let p = generate_punctuation();
    let expected = vec![".", ",", ";", ":", "!", "?", "'", "\""];
    assert_eq!(p, expected);
}

#[test]
fn bad_split_list_is_exact() {
    let b = generate_bad_split_chars();
    let expected = vec![
        "[]", "[", "]", "()", "(", ")", "\u{2022}", "entry", "Entry", "story", "Story",
        "Feature", "feature",
    ];
    assert_eq!(b, expected);
}

#[test]
fn whitespace_list_is_exact() {
    let w = generate_whitespace_chars();
    let expected = vec![r"\t", r"\r", r"\v", r"\f"];
    assert_eq!(w, expected);
}
