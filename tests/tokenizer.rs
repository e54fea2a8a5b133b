use ledger_cli::tokenizer::tokenize_string;

#[test]
fn tokenize_empty_string() {
    let s = String::from("");
    assert_eq!(tokenize_string(&s), Vec::<&str>::new())
}

#[test]
fn tokenize_string_with_only_whitespace() {
    let s = String::from("  \t \n");
    assert_eq!(tokenize_string(&s), Vec::<&str>::new())
}

#[test]
fn tokenize_string_with_only_escaped_whitespace() {
    let s = String::from(" \\   ");
    assert_eq!(tokenize_string(&s), vec![" "])
}

#[test]
fn tokenize_one_token_string() {
    let s = String::from("token");
    assert_eq!(tokenize_string(&s), vec!["token"])
}

#[test]
fn tokenize_multi_token_string() {
    let s = String::from("  this is      a\tstring\n");
    assert_eq!(tokenize_string(&s), vec!["this", "is", "a", "string"])
}

#[test]
fn tokenize_with_quote() {
    let s = String::from("this is \"a string\" ");
    assert_eq!(tokenize_string(&s), vec!["this", "is", "a string"])
}

#[test]
fn tokenize_with_partially_quoted_token() {
    let s = String::from("\"this is\"a string");
    assert_eq!(tokenize_string(&s), vec!["this isa", "string"])
}

#[test]
fn tokenize_with_two_quoted_token_parts() {
    let s = String::from("\"this is\"' a string'");
    assert_eq!(tokenize_string(&s), vec!["this is a string"])
}

#[test]
fn tokenize_with_single_quote() {
    let s = String::from("this is 'a string'  ");
    assert_eq!(tokenize_string(&s), vec!["this", "is", "a string"])
}

#[test]
fn tokenize_with_escape() {
    let s = String::from(r"this is a\ string  ");
    assert_eq!(tokenize_string(&s), vec!["this", "is", "a string"])
}

// An escape inside a quoted region still makes the next character literal,
// and is itself consumed.
#[test]
fn tokenize_with_escape_inside_quote() {
    let s = String::from("this is \"a\\ string\" ");
    assert_eq!(tokenize_string(&s), vec!["this", "is", "a string"])
}

#[test]
fn tokenize_with_interior_quote_mark() {
    let s = String::from("\"tok'en\"");
    assert_eq!(tokenize_string(&s), vec!["tok'en"])
}

#[test]
fn tokenize_with_double_escape() {
    let s = String::from(r"tok\\en");
    assert_eq!(tokenize_string(&s), vec![r"tok\en"])
}

#[test]
fn tokenize_with_escaped_normal_character() {
    let s = String::from(r"tok\en");
    assert_eq!(tokenize_string(&s), vec![r"token"])
}

#[test]
fn tokenize_with_escaped_quotes() {
    let s = String::from("\\\"token\\\"");
    assert_eq!(tokenize_string(&s), vec!["\"token\""])
}

#[test]
fn tokenize_escaped_whitespace_run_is_one_token() {
    assert_eq!(tokenize_string("\\ \\\t"), vec![" \t"]);
    assert_eq!(tokenize_string("  \\ \\  "), vec!["  "]);
}

#[test]
fn tokenize_escape_inside_quote_keeps_quote_literal() {
    assert_eq!(tokenize_string("\"a\\\"b\" c"), vec!["a\"b", "c"]);
}

#[test]
fn tokenize_unterminated_quote_ends_with_input() {
    assert_eq!(tokenize_string("say \"hello world"), vec!["say", "hello world"]);
}

#[test]
fn tokenize_empty_quotes_make_no_token() {
    assert_eq!(tokenize_string("a \"\" b"), vec!["a", "b"]);
}

#[test]
fn tokenize_other_quote_inside_quoted_region_is_literal() {
    assert_eq!(tokenize_string("'say \"hi\"' now"), vec!["say \"hi\"", "now"]);
}

#[test]
fn tokenize_trailing_escape_is_dropped() {
    assert_eq!(tokenize_string("abc\\"), vec!["abc"]);
}

#[test]
fn tokenize_unicode_whitespace_separates() {
    assert_eq!(tokenize_string("a\u{3000}b\u{a0}c"), vec!["a", "b", "c"]);
}
