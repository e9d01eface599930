//! Escaping of template values for the Telegram parse modes.
//!
//! The template engine hands every printed value to a formatter together
//! with the auto-escape mode of the template; the formatter decides, from
//! the mode, which of Telegram's escapes the value needs.
use vstd::prelude::*;

verus! {

/// What Telegram's HTML escape makes of one character: `&`, `<` and `>`
/// become entities, every other character stays.
pub open spec fn html_entity(c: char) -> Seq<char> {
    if c == '&' {
        seq!['&', 'a', 'm', 'p', ';']
    } else if c == '<' {
        seq!['&', 'l', 't', ';']
    } else if c == '>' {
        seq!['&', 'g', 't', ';']
    } else {
        seq![c]
    }
}

/// A text escaped for Telegram's HTML parse mode, character by character.
pub open spec fn html_escaped(s: Seq<char>) -> Seq<char>
    decreases s.len(),
{
    if s.len() == 0 {
        seq![]
    } else {
        html_escaped(s.drop_last()) + html_entity(s.last())
    }
}

/// The characters that Telegram's MarkdownV2 parse mode reserves.
pub open spec fn is_markdown_special(c: char) -> bool {
    ||| c == '\\'
    ||| c == '_'
    ||| c == '*'
    ||| c == '['
    ||| c == ']'
    ||| c == '('
    ||| c == ')'
    ||| c == '~'
    ||| c == '`'
    ||| c == '>'
    ||| c == '#'
    ||| c == '+'
    ||| c == '-'
    ||| c == '='
    ||| c == '|'
    ||| c == '{'
    ||| c == '}'
    ||| c == '.'
    ||| c == '!'
}

/// What Telegram's MarkdownV2 escape makes of one character: a reserved
/// character gets a backslash in front of it.
pub open spec fn markdown_entity(c: char) -> Seq<char> {
    if is_markdown_special(c) {
        seq!['\\', c]
    } else {
        seq![c]
    }
}

/// A text escaped for Telegram's MarkdownV2 parse mode, character by character.
pub open spec fn markdown_escaped(s: Seq<char>) -> Seq<char>
    decreases s.len(),
{
    if s.len() == 0 {
        seq![]
    } else {
        markdown_escaped(s.drop_last()) + markdown_entity(s.last())
    }
}

/// `teloxide::utils::html::escape`: its source folds over the characters of
/// the text, writing `&amp;`, `&lt;`, `&gt;` for `&`, `<`, `>` and every other
/// character unchanged; the contract states exactly that.
#[verifier::external_body]
fn html_escape(s: &str) -> (r: String)
    ensures
        r@ == html_escaped(s@),
{
    teloxide::utils::html::escape(s)
}

/// `teloxide::utils::markdown::escape`: its source folds over the characters
/// of the text and writes a backslash before each of the nineteen characters
/// of its `ESCAPE_CHARS` list, which `is_markdown_special` spells out; the
/// contract states exactly that.
#[verifier::external_body]
fn markdown_escape(s: &str) -> (r: String)
    ensures
        r@ == markdown_escaped(s@),
{
    teloxide::utils::markdown::escape(s)
}

/// Name of the custom auto-escape mode that selects Telegram's HTML escape.
pub open spec fn html_tag() -> Seq<char> {
    "telegram_html"@
}

/// Name of the custom auto-escape mode that selects Telegram's MarkdownV2 escape.
pub open spec fn markdown_tag() -> Seq<char> {
    "telegram_markdown"@
}

/// The name of the custom auto-escape mode for Telegram HTML.
pub fn html_escape_tag() -> (s: String)
    ensures
        s@ == html_tag(),
{
    String::from_str("telegram_html")
}

/// The name of the custom auto-escape mode for Telegram MarkdownV2.
pub fn markdown_escape_tag() -> (s: String)
    ensures
        s@ == markdown_tag(),
{
    String::from_str("telegram_markdown")
}

/// The auto-escape mode in force where a value is printed.
pub enum AutoEscapeMode {
    /// No escaping.
    Disabled,
    /// The engine's own HTML escaping.
    Html,
    /// A custom mode, known by its name.
    Custom(String),
    /// Any other mode of the engine.
    Other,
}

/// A value printed by a template, as the formatter sees it.
pub enum TemplateValue {
    /// A string value.
    Text(String),
    /// Any other value, by the text that its display gives.
    Other(String),
}

/// What a string value becomes under an auto-escape mode.
pub open spec fn escaped_for(mode: AutoEscapeMode, s: Seq<char>) -> Seq<char> {
    match mode {
        AutoEscapeMode::Html => html_escaped(s),
        AutoEscapeMode::Custom(tag) => {
            if tag@ == html_tag() {
                html_escaped(s)
            } else if tag@ == markdown_tag() {
                markdown_escaped(s)
            } else {
                s
            }
        },
        _ => s,
    }
}

/// What the formatter writes for a value under an auto-escape mode.
pub open spec fn formatted(mode: AutoEscapeMode, value: TemplateValue) -> Seq<char> {
    match value {
        TemplateValue::Text(s) => escaped_for(mode, s@),
        TemplateValue::Other(shown) => shown@,
    }
}

/// The text a string value becomes under `mode`.
pub fn escape_for_mode(mode: &AutoEscapeMode, s: &str) -> (r: String)
    ensures
        r@ == escaped_for(*mode, s@),
{
    match mode {
        AutoEscapeMode::Html => html_escape(s),
        AutoEscapeMode::Custom(tag) => {
            if *tag == html_escape_tag() {
                html_escape(s)
            } else if *tag == markdown_escape_tag() {
                markdown_escape(s)
            } else {
                String::from_str(s)
            }
        },
        _ => String::from_str(s),
    }
}

/// The text the template formatter writes for `value`: a string value is
/// escaped as the auto-escape mode asks (Telegram HTML for the engine's HTML
/// mode and for the custom mode `telegram_html`, Telegram MarkdownV2 for the
/// custom mode `telegram_markdown`, unchanged otherwise); any other value is
/// written as its display shows it.
pub fn telegram_escape_formatter(mode: &AutoEscapeMode, value: &TemplateValue) -> (r: String)
    ensures
        r@ == formatted(*mode, *value),
{
    match value {
        TemplateValue::Text(s) => escape_for_mode(mode, s.as_str()),
        TemplateValue::Other(shown) => shown.clone(),
    }
}

} // verus!
