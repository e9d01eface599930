//! Properties that hold across the library's functions.
use vstd::prelude::*;

use crate::config::{is_auto_escape_for, log_level_name, Config, LogLevel, ParseModeOpt};
use crate::escape::{
    AutoEscapeMode, TemplateValue, escaped_for, formatted, html_entity, html_escaped, html_tag,
    markdown_entity, markdown_escaped, markdown_tag,
};
use crate::template::{escape_meaning, unescaped};

verus! {

/// A template without a backslash is left exactly as it is.
pub proof fn lemma_unescape_without_backslash(s: Seq<char>)
    requires
        forall|i: int| 0 <= i < s.len() ==> s[i] != '\\',
    ensures
        unescaped(s) == s,
    decreases s.len(),
{
    if s.len() > 0 {
        let rest = s.skip(1);
        assert forall|i: int| 0 <= i < rest.len() implies rest[i] != '\\' by {
            assert(rest[i] == s[i + 1]);
        }
        lemma_unescape_without_backslash(rest);
        assert(seq![s[0]] + rest =~= s);
    }
}

/// Resolving escapes never makes a template longer.
pub proof fn lemma_unescape_never_longer(s: Seq<char>)
    ensures
        unescaped(s).len() <= s.len(),
    decreases s.len(),
{
    if s.len() > 0 {
        if s[0] == '\\' && s.len() >= 2 && escape_meaning(s[1]) is Some {
            lemma_unescape_never_longer(s.skip(2));
        } else {
            lemma_unescape_never_longer(s.skip(1));
        }
    }
}

/// Text escaped for Telegram HTML holds no raw `<` or `>`.
pub proof fn lemma_html_escaped_has_no_angle_brackets(s: Seq<char>)
    ensures
        forall|i: int|
            0 <= i < html_escaped(s).len() ==> html_escaped(s)[i] != '<' && html_escaped(s)[i]
                != '>',
    decreases s.len(),
{
    if s.len() > 0 {
        lemma_html_escaped_has_no_angle_brackets(s.drop_last());
        let prefix = html_escaped(s.drop_last());
        let last = html_entity(s.last());
        assert(html_escaped(s) == prefix + last);
        assert forall|i: int| 0 <= i < (prefix + last).len() implies (prefix + last)[i] != '<'
            && (prefix + last)[i] != '>' by {
            if i >= prefix.len() {
                assert((prefix + last)[i] == last[i - prefix.len()]);
            }
        }
    }
}

/// A string value printed by a template is escaped as the configured parse
/// mode asks: unchanged for plain text, with Telegram's HTML escape for HTML
/// and with Telegram's MarkdownV2 escape for Markdown.
pub proof fn lemma_values_escaped_for_parse_mode(
    p: ParseModeOpt,
    mode: AutoEscapeMode,
    s: Seq<char>,
)
    requires
        is_auto_escape_for(p, mode),
    ensures
        escaped_for(mode, s) == (match p {
            ParseModeOpt::Plain => s,
            ParseModeOpt::Html => html_escaped(s),
            ParseModeOpt::Markdown => markdown_escaped(s),
        }),
{
    reveal_strlit("telegram_html");
    reveal_strlit("telegram_markdown");
    assert(html_tag().len() != markdown_tag().len());
}

/// Each recognised escape pair becomes exactly one character, whatever
/// follows it: `\n`, `\r`, `\t` and `\\` become a newline, a carriage return,
/// a tab and a backslash; a backslash before any other character is kept, and
/// that character is read anew.
pub proof fn lemma_unescape_escape_pair(c: char, t: Seq<char>)
    ensures
        c == 'n' ==> unescaped(seq!['\\', c] + t) == seq!['\n'] + unescaped(t),
        c == 'r' ==> unescaped(seq!['\\', c] + t) == seq!['\r'] + unescaped(t),
        c == 't' ==> unescaped(seq!['\\', c] + t) == seq!['\t'] + unescaped(t),
        c == '\\' ==> unescaped(seq!['\\', c] + t) == seq!['\\'] + unescaped(t),
        !(c == 'n' || c == 'r' || c == 't' || c == '\\') ==> unescaped(seq!['\\', c] + t)
            == seq!['\\'] + unescaped(seq![c] + t),
{
    let s = seq!['\\', c] + t;
    assert(s[0] == '\\' && s[1] == c);
    assert(s.skip(2) =~= t);
    assert(s.skip(1) =~= seq![c] + t);
}

/// A character other than a backslash is copied, and the rest of the
/// template is read on after it.
pub proof fn lemma_unescape_plain_char(c: char, t: Seq<char>)
    requires
        c != '\\',
    ensures
        unescaped(seq![c] + t) == seq![c] + unescaped(t),
{
    let s = seq![c] + t;
    assert(s[0] == c);
    assert(s.skip(1) =~= t);
}

/// The empty template stays empty, and a lone backslash at the end is kept.
pub proof fn lemma_unescape_ends()
    ensures
        unescaped(Seq::<char>::empty()) == Seq::<char>::empty(),
        unescaped(seq!['\\']) == seq!['\\'],
{
    let s = seq!['\\'];
    assert(unescaped(Seq::<char>::empty()) == Seq::<char>::empty());
    assert(s.len() == 1 && s[0] == '\\');
    assert(s.skip(1) =~= Seq::<char>::empty());
    assert(unescaped(s) == seq![s[0]] + unescaped(s.skip(1)));
    assert(seq![s[0]] + Seq::<char>::empty() =~= s);
}

/// `k` consecutive newline escapes give `k` newlines.
pub proof fn lemma_unescape_newline_run(k: nat, t: Seq<char>)
    ensures
        unescaped(Seq::new(2 * k, |i: int| if i % 2 == 0 { '\\' } else { 'n' }) + t)
            == Seq::new(k, |i: int| '\n') + unescaped(t),
    decreases k,
{
    let run = Seq::new(2 * k, |i: int| if i % 2 == 0 { '\\' } else { 'n' });
    if k == 0 {
        assert(run + t =~= t);
        assert(Seq::new(k, |i: int| '\n') + unescaped(t) =~= unescaped(t));
    } else {
        let k1 = (k - 1) as nat;
        let shorter = Seq::new(2 * k1, |i: int| if i % 2 == 0 { '\\' } else { 'n' });
        lemma_unescape_newline_run(k1, t);
        assert(run + t =~= seq!['\\', 'n'] + (shorter + t));
        lemma_unescape_escape_pair('n', shorter + t);
        assert(Seq::new(k, |i: int| '\n') =~= seq!['\n'] + Seq::new(k1, |i: int| '\n'));
    }
}

/// Telegram's HTML escape works character by character: escaping a joined
/// text gives the joined escapes of its parts.
pub proof fn lemma_html_escaped_concat(a: Seq<char>, b: Seq<char>)
    ensures
        html_escaped(a + b) == html_escaped(a) + html_escaped(b),
    decreases b.len(),
{
    if b.len() == 0 {
        assert(a + b =~= a);
        assert(html_escaped(a) + html_escaped(b) =~= html_escaped(a));
    } else {
        lemma_html_escaped_concat(a, b.drop_last());
        assert((a + b).drop_last() =~= a + b.drop_last());
        assert((a + b).last() == b.last());
    }
}

/// What Telegram's HTML escape makes of a single character: `&`, `<`, `>`
/// become `&amp;`, `&lt;`, `&gt;`; every other character stays.
pub proof fn lemma_html_escaped_char(c: char)
    ensures
        html_escaped(seq![c]) == (if c == '&' {
            seq!['&', 'a', 'm', 'p', ';']
        } else if c == '<' {
            seq!['&', 'l', 't', ';']
        } else if c == '>' {
            seq!['&', 'g', 't', ';']
        } else {
            seq![c]
        }),
{
    assert(seq![c].drop_last() =~= Seq::<char>::empty());
    assert(seq![c].last() == c);
    assert(html_escaped(Seq::<char>::empty()) == Seq::<char>::empty());
    assert(html_escaped(seq![c]) == html_escaped(seq![c].drop_last()) + html_entity(c));
    assert(Seq::<char>::empty() + html_entity(c) =~= html_entity(c));
}

/// Telegram's MarkdownV2 escape works character by character: escaping a
/// joined text gives the joined escapes of its parts.
pub proof fn lemma_markdown_escaped_concat(a: Seq<char>, b: Seq<char>)
    ensures
        markdown_escaped(a + b) == markdown_escaped(a) + markdown_escaped(b),
    decreases b.len(),
{
    if b.len() == 0 {
        assert(a + b =~= a);
        assert(markdown_escaped(a) + markdown_escaped(b) =~= markdown_escaped(a));
    } else {
        lemma_markdown_escaped_concat(a, b.drop_last());
        assert((a + b).drop_last() =~= a + b.drop_last());
        assert((a + b).last() == b.last());
    }
}

/// What Telegram's MarkdownV2 escape makes of a single character: each of
/// `\ _ * [ ] ( ) ~ ` > # + - = | { } . !` gets a backslash in front of it;
/// every other character stays.
pub proof fn lemma_markdown_escaped_char(c: char)
    ensures
        markdown_escaped(seq![c]) == (if c == '\\' || c == '_' || c == '*' || c == '['
            || c == ']' || c == '(' || c == ')' || c == '~' || c == '`' || c == '>' || c == '#'
            || c == '+' || c == '-' || c == '=' || c == '|' || c == '{' || c == '}' || c == '.'
            || c == '!' {
            seq!['\\', c]
        } else {
            seq![c]
        }),
{
    assert(seq![c].drop_last() =~= Seq::<char>::empty());
    assert(seq![c].last() == c);
    assert(markdown_escaped(Seq::<char>::empty()) == Seq::<char>::empty());
    assert(markdown_escaped(seq![c]) == markdown_escaped(seq![c].drop_last())
        + markdown_entity(c));
    assert(Seq::<char>::empty() + seq!['\\', c] =~= seq!['\\', c]);
    assert(Seq::<char>::empty() + seq![c] =~= seq![c]);
}

/// Every string value a template prints is escaped whole, whatever its
/// characters, as its mode asks: the custom mode `telegram_markdown` gives
/// Telegram's MarkdownV2 escape, the custom mode `telegram_html` and the
/// engine's HTML mode give Telegram's HTML escape, and any other mode leaves
/// the text as it is.
pub proof fn lemma_formatter_escapes_strings(tag: String, s: String)
    ensures
        tag@ == "telegram_markdown"@ ==> formatted(
            AutoEscapeMode::Custom(tag),
            TemplateValue::Text(s),
        ) == markdown_escaped(s@),
        tag@ == "telegram_html"@ ==> formatted(AutoEscapeMode::Custom(tag), TemplateValue::Text(s))
            == html_escaped(s@),
        formatted(AutoEscapeMode::Html, TemplateValue::Text(s)) == html_escaped(s@),
        formatted(AutoEscapeMode::Disabled, TemplateValue::Text(s)) == s@,
        formatted(AutoEscapeMode::Other, TemplateValue::Text(s)) == s@,
{
    reveal_strlit("telegram_html");
    reveal_strlit("telegram_markdown");
    assert(html_tag().len() != markdown_tag().len());
}

/// Under the auto-escape mode chosen for a parse mode, the formatter writes
/// a string value unchanged for plain text, with Telegram's HTML escape for
/// HTML and with Telegram's MarkdownV2 escape for Markdown.
pub proof fn lemma_formatter_follows_parse_mode(p: ParseModeOpt, mode: AutoEscapeMode, s: String)
    requires
        is_auto_escape_for(p, mode),
    ensures
        formatted(mode, TemplateValue::Text(s)) == (match p {
            ParseModeOpt::Plain => s@,
            ParseModeOpt::Html => html_escaped(s@),
            ParseModeOpt::Markdown => markdown_escaped(s@),
        }),
{
    lemma_values_escaped_for_parse_mode(p, mode, s@);
}

/// A value that is not a string is written as its display shows it, under
/// every mode.
pub proof fn lemma_formatter_shows_other_values(mode: AutoEscapeMode, shown: String)
    ensures
        formatted(mode, TemplateValue::Other(shown)) == shown@,
{
}

/// Messages go to Telegram exactly when a bot token and a chat id are set,
/// whatever the chat id, and to the webhook exactly when a webhook URL is
/// set, whatever else is configured.
pub proof fn lemma_forwarding_follows_settings(c: Config)
    ensures
        c.spec_use_telegram() <==> (c.bot_token is Some && c.chat_id is Some),
        c.spec_use_webhook() <==> c.webhook_url is Some,
{
}

/// Each log level is shown by the name under which it is given on the
/// command line, and no two levels share a name.
pub proof fn lemma_log_level_names()
    ensures
        log_level_name(LogLevel::Error) == "error"@,
        log_level_name(LogLevel::Warn) == "warn"@,
        log_level_name(LogLevel::Info) == "info"@,
        log_level_name(LogLevel::Debug) == "debug"@,
        log_level_name(LogLevel::Trace) == "trace"@,
        forall|a: LogLevel, b: LogLevel| a != b ==> log_level_name(a) != log_level_name(b),
{
    reveal_strlit("error");
    reveal_strlit("warn");
    reveal_strlit("info");
    reveal_strlit("debug");
    reveal_strlit("trace");
    assert("error"@[0] != "debug"@[0]);
    assert("info"@[0] != "debug"@[0]);
    assert("trace"@[0] != "debug"@[0]);
    assert("error"@[0] != "trace"@[0]);
}

} // verus!
