use winstart::quoting::{contains_char, join_params, split_command_line};

fn strings(v: &[&str]) -> Vec<String> {
    v.iter().map(|s| s.to_string()).collect()
}

#[test]
fn join_of_no_parameters_is_empty() {
    assert_eq!(join_params(&strings(&[])), "");
}

#[test]
fn join_of_one_plain_parameter_is_verbatim() {
    assert_eq!(join_params(&strings(&["a"])), "a");
}

#[test]
fn join_quotes_a_parameter_with_a_space() {
    assert_eq!(join_params(&strings(&["a", "b c"])), "a \"b c\"");
}

#[test]
fn join_quotes_every_parameter_with_a_space() {
    assert_eq!(join_params(&strings(&["a b", "c d"])), "\"a b\" \"c d\"");
}

#[test]
fn join_keeps_parameter_order() {
    assert_eq!(join_params(&strings(&["x", "y", "z"])), "x y z");
}

#[test]
fn join_does_not_escape_embedded_quotes() {
    assert_eq!(join_params(&strings(&["a\"b"])), "a\"b");
}

#[test]
fn split_recovers_joined_parameters() {
    let params = strings(&["ab", "c d", "", "e"]);
    let joined = join_params(&params);
    assert_eq!(joined, "ab \"c d\"  e");
    assert_eq!(split_command_line(&joined), params);
}

#[test]
fn split_of_empty_line_holds_no_parameters() {
    assert_eq!(split_command_line(""), Vec::<String>::new());
}

#[test]
fn split_drops_quotes_and_keeps_quoted_spaces() {
    assert_eq!(split_command_line("a \"b c\""), strings(&["a", "b c"]));
}

#[test]
fn contains_char_finds_and_misses() {
    assert!(contains_char("a b", ' '));
    assert!(!contains_char("ab", ' '));
    assert!(contains_char("a\0b", '\0'));
    assert!(!contains_char("", ' '));
}
