use erlup::words::{split, SplitError};

fn ok(s: &str) -> Vec<String> {
    match split(s) {
        Ok(words) => words,
        Err(SplitError::UnclosedQuote) => panic!("unexpected parse error on {:?}", s),
    }
}

#[test]
fn split_empty_is_no_words() {
    assert_eq!(ok(""), Vec::<String>::new());
    assert_eq!(ok("   \t \n "), Vec::<String>::new());
}

#[test]
fn split_plain_words() {
    assert_eq!(
        ok("--without-wx --without-odbc --enable-builtin-zlib"),
        vec!["--without-wx", "--without-odbc", "--enable-builtin-zlib"]
    );
}

#[test]
fn split_double_quoted_value_is_one_token() {
    assert_eq!(
        ok("--without-javac CFLAGS=\"-g -O2 -march=native\""),
        vec!["--without-javac", "CFLAGS=-g -O2 -march=native"]
    );
}

#[test]
fn split_single_quotes_take_text_literally() {
    assert_eq!(ok("a 'b c' d"), vec!["a", "b c", "d"]);
    assert_eq!(ok("'a\"b'"), vec!["a\"b"]);
}

#[test]
fn split_empty_quotes_make_an_empty_word() {
    assert_eq!(ok("''"), vec![""]);
    assert_eq!(ok("a '' b"), vec!["a", "", "b"]);
}

#[test]
fn split_backslash_escapes_next_character() {
    assert_eq!(ok("a\\ b"), vec!["a b"]);
    assert_eq!(ok("\\'"), vec!["'"]);
}

#[test]
fn split_line_continuation_joins_words() {
    assert_eq!(ok("a\\\nb"), vec!["ab"]);
    assert_eq!(ok("\\\n"), Vec::<String>::new());
}

#[test]
fn split_double_quote_escapes() {
    assert_eq!(ok("\"a\\$b\""), vec!["a$b"]);
    assert_eq!(ok("\"a\\\\b\""), vec!["a\\b"]);
    assert_eq!(ok("\"a\\\"b\""), vec!["a\"b"]);
    // a backslash before an ordinary character stays in the word
    assert_eq!(ok("\"a\\xb\""), vec!["a\\xb"]);
}

#[test]
fn split_comment_runs_to_end_of_line() {
    assert_eq!(ok("a #b c"), vec!["a"]);
    assert_eq!(ok("a #b\nc"), vec!["a", "c"]);
    // a hash inside a word is not a comment
    assert_eq!(ok("a#b"), vec!["a#b"]);
}

#[test]
fn split_trailing_backslash_is_kept() {
    assert_eq!(ok("a\\"), vec!["a\\"]);
    assert_eq!(ok("\\"), vec!["\\"]);
}

#[test]
fn split_unclosed_quote_is_rejected() {
    assert!(matches!(split("'open"), Err(SplitError::UnclosedQuote)));
    assert!(matches!(split("\"open"), Err(SplitError::UnclosedQuote)));
    assert!(matches!(split("\"open\\"), Err(SplitError::UnclosedQuote)));
}

#[test]
fn split_agrees_with_unix_shell_splitting() {
    let inputs = [
        "",
        "  ",
        "one",
        "one two three",
        "--prefix /tmp/x --enable-y",
        "CFLAGS=\"-g -O2 -march=native\" --without-wx",
        "'single quoted' mixed\"double\"parts",
        "a\\ b c\\'d",
        "a\\\nb",
        "\"esc \\$ \\` \\\" \\\\ plain \\x\"",
        "# just a comment",
        "word # trailing comment",
        "word#notcomment",
        "''",
        "end\\",
        "\\",
        "tabs\tand\nnewlines mix",
    ];
    for input in inputs {
        let theirs = shell_words::split(input).expect("reference split failed");
        assert_eq!(ok(input), theirs, "mismatch on {:?}", input);
    }
    let bad = ["'open", "\"open", "mid 'way", "\"trail\\"];
    for input in bad {
        assert!(shell_words::split(input).is_err());
        assert!(split(input).is_err(), "should reject {:?}", input);
    }
}
