use emtt::template::unescape_template;

fn unescape(s: &str) -> String {
    unescape_template(s.to_string())
}

#[test]
fn unescape_newline_return_tab() {
    assert_eq!(unescape("a\\nb\\rc\\td"), "a\nb\rc\td");
}

#[test]
fn unescape_double_backslash() {
    assert_eq!(unescape("a\\\\n"), "a\\n");
}

#[test]
fn unescape_unknown_escape_kept() {
    assert_eq!(unescape("\\x\\q"), "\\x\\q");
}

#[test]
fn unescape_backslash_before_backslash_escape() {
    // the backslash before `\n` is unknown-escaped; the next pair is read anew
    assert_eq!(unescape("\\\\\\n"), "\\\n");
}

#[test]
fn unescape_trailing_backslash_kept() {
    assert_eq!(unescape("end\\"), "end\\");
    assert_eq!(unescape("\\"), "\\");
}

#[test]
fn unescape_empty() {
    assert_eq!(unescape(""), "");
}

#[test]
fn unescape_without_backslash_is_identity() {
    let s = "<b>{{ from }}</b> (via <i>{{ via }}</i>) äöü ✓";
    assert_eq!(unescape(s), s);
}

#[test]
fn unescape_default_style_template() {
    assert_eq!(
        unescape("<b>{{ from }}</b>\\n<blockquote>{{ text }}</blockquote>"),
        "<b>{{ from }}</b>\n<blockquote>{{ text }}</blockquote>"
    );
}

#[test]
fn unescape_never_longer() {
    for s in ["\\n\\n\\n", "abc", "\\\\\\\\", "\\z", "x\\"] {
        assert!(unescape(s).chars().count() <= s.chars().count());
    }
}
