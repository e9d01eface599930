use emtt::config::{auto_escape_for, ParseModeOpt};
use emtt::escape::{
    escape_for_mode, html_escape_tag, markdown_escape_tag, telegram_escape_formatter,
    AutoEscapeMode, TemplateValue,
};

fn text(s: &str) -> TemplateValue {
    TemplateValue::Text(s.to_string())
}

#[test]
fn html_mode_escapes_entities() {
    let mode = auto_escape_for(ParseModeOpt::Html);
    let r = telegram_escape_formatter(&mode, &text("a < b && c > d"));
    assert_eq!(r, "a &lt; b &amp;&amp; c &gt; d");
}

#[test]
fn engine_html_mode_uses_telegram_html_escape() {
    let r = telegram_escape_formatter(&AutoEscapeMode::Html, &text("\"<'x'>\""));
    assert_eq!(r, "\"&lt;'x'&gt;\"");
}

#[test]
fn markdown_mode_escapes_reserved_characters() {
    let mode = auto_escape_for(ParseModeOpt::Markdown);
    let r = telegram_escape_formatter(&mode, &text("1.5 * (x_y) = [z]!"));
    assert_eq!(r, "1\\.5 \\* \\(x\\_y\\) \\= \\[z\\]\\!");
}

#[test]
fn markdown_mode_escapes_all_nineteen() {
    let mode = auto_escape_for(ParseModeOpt::Markdown);
    let r = telegram_escape_formatter(&mode, &text("\\_*[]()~`>#+-=|{}.!a"));
    assert_eq!(r, "\\\\\\_\\*\\[\\]\\(\\)\\~\\`\\>\\#\\+\\-\\=\\|\\{\\}\\.\\!a");
}

#[test]
fn plain_mode_leaves_text() {
    let mode = auto_escape_for(ParseModeOpt::Plain);
    let r = telegram_escape_formatter(&mode, &text("<b>*x*</b>"));
    assert_eq!(r, "<b>*x*</b>");
}

#[test]
fn unknown_custom_mode_leaves_text() {
    let mode = AutoEscapeMode::Custom("latex".to_string());
    assert_eq!(telegram_escape_formatter(&mode, &text("<&>")), "<&>");
    assert_eq!(escape_for_mode(&AutoEscapeMode::Other, "<&>"), "<&>");
}

#[test]
fn non_string_values_are_shown_unescaped() {
    let mode = auto_escape_for(ParseModeOpt::Html);
    let r = telegram_escape_formatter(&mode, &TemplateValue::Other("<5>".to_string()));
    assert_eq!(r, "<5>");
    let mode = auto_escape_for(ParseModeOpt::Markdown);
    let r = telegram_escape_formatter(&mode, &TemplateValue::Other("-3.5".to_string()));
    assert_eq!(r, "-3.5");
}

#[test]
fn escape_tags() {
    assert_eq!(html_escape_tag(), "telegram_html");
    assert_eq!(markdown_escape_tag(), "telegram_markdown");
}

#[test]
fn html_escaped_has_no_angle_brackets() {
    let mode = AutoEscapeMode::Custom("telegram_html".to_string());
    let r = escape_for_mode(&mode, "<<>>x<y>");
    assert!(!r.contains('<') && !r.contains('>'));
}
