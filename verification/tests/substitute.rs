use dora_cli::substitute::replace_all;

#[test]
fn replaces_single_occurrence() {
    assert_eq!(replace_all("ab", "b", "c"), "ac");
}

#[test]
fn replaces_every_occurrence() {
    assert_eq!(
        replace_all("x ___name___ y ___name___", "___name___", "foo"),
        "x foo y foo"
    );
}

#[test]
fn absent_token_leaves_text_unchanged() {
    assert_eq!(replace_all("hello world", "___name___", "foo"), "hello world");
}

#[test]
fn empty_text_stays_empty() {
    assert_eq!(replace_all("", "___name___", "foo"), "");
}

#[test]
fn empty_token_leaves_text_unchanged() {
    assert_eq!(replace_all("abc", "", "x"), "abc");
}

#[test]
fn scan_is_greedy_left_to_right() {
    assert_eq!(replace_all("aaa", "aa", "b"), "ba");
}

#[test]
fn replacement_text_is_not_rescanned() {
    // The emitted replacement can recombine with the following text into a
    // fresh occurrence of the token; the scan does not replace it again.
    assert_eq!(replace_all("abb", "ab", "a"), "ab");
}

#[test]
fn adjacent_occurrences_all_replaced() {
    assert_eq!(replace_all("___name______name___", "___name___", "z"), "zz");
}
