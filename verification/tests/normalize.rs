use gai::text::normalize;

#[test]
fn strips_one_pair_of_quotes() {
    assert_eq!(normalize("\"fix: handle null\""), "fix: handle null");
}

#[test]
fn unquoted_input_is_unchanged() {
    assert_eq!(normalize("fix: handle null"), "fix: handle null");
}

#[test]
fn trims_leading_whitespace_and_trailing_newline() {
    assert_eq!(normalize("   fix: handle null\n"), "fix: handle null");
}

#[test]
fn normalize_is_idempotent_on_clean_result() {
    let inputs = ["  feat: add parser  ", "\"chore: bump deps\"", "fix: x", ""];
    for input in inputs {
        let once = normalize(input);
        let twice = normalize(&once);
        assert_eq!(twice, once);
    }
}

#[test]
fn strips_only_one_quote_pair_per_pass() {
    assert_eq!(normalize("\"\"feat: x\"\""), "\"feat: x\"");
}

#[test]
fn strips_unmatched_quote_on_either_end() {
    assert_eq!(normalize("\"feat: x"), "feat: x");
    assert_eq!(normalize("feat: x\""), "feat: x");
}

#[test]
fn quote_stripping_can_expose_inner_whitespace() {
    assert_eq!(normalize("\" a \""), " a ");
}

#[test]
fn quote_only_inputs_normalize_to_empty() {
    assert_eq!(normalize("\""), "");
    assert_eq!(normalize("\"\""), "");
    assert_eq!(normalize("  \"\"  "), "");
}

#[test]
fn empty_and_blank_inputs_normalize_to_empty() {
    assert_eq!(normalize(""), "");
    assert_eq!(normalize(" \t\r\n"), "");
}

#[test]
fn interior_quotes_and_whitespace_are_kept() {
    assert_eq!(normalize("revert: revert \"feat: x\""), "revert: revert \"feat: x");
    assert_eq!(normalize("feat: add a b c"), "feat: add a b c");
}
