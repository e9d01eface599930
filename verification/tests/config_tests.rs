use emtt::config::{
    auto_escape_for, telegram_parse_mode, Config, LogLevel, Outputs, ParseModeOpt,
    StartupError, TelegramParseMode,
};
use emtt::escape::AutoEscapeMode;

fn config(bot: Option<&str>, chat: Option<i64>, webhook: Option<&str>) -> Config {
    Config::new(
        bot.map(|s| s.to_string()),
        chat,
        webhook.map(|s| s.to_string()),
        true,
        None,
        "{{ text }}\\n".to_string(),
        ParseModeOpt::Html,
        "0.0.0.0".to_string(),
        50514,
        None,
        None,
    )
}

#[test]
fn config_new_unescapes_template() {
    let c = config(None, None, Some("http://x"));
    assert_eq!(c.template, "{{ text }}\n");
    assert_eq!(c.syslog_port, 50514);
    assert!(c.dm);
}

#[test]
fn no_output_configured() {
    assert_eq!(config(None, None, None).outputs(), Err(StartupError::NoOutputConfigured));
    assert_eq!(config(Some("t"), None, None).outputs(), Err(StartupError::NoOutputConfigured));
    assert_eq!(config(None, Some(-100), None).outputs(), Err(StartupError::NoOutputConfigured));
}

#[test]
fn telegram_only() {
    let c = config(Some("t"), Some(-100), None);
    assert!(c.use_telegram());
    assert!(!c.use_webhook());
    assert_eq!(c.outputs(), Ok(Outputs { telegram: true, webhook: false }));
}

#[test]
fn webhook_only_and_both() {
    assert_eq!(
        config(Some("t"), None, Some("http://x")).outputs(),
        Ok(Outputs { telegram: false, webhook: true })
    );
    assert_eq!(
        config(Some("t"), Some(1), Some("http://x")).outputs(),
        Ok(Outputs { telegram: true, webhook: true })
    );
}

#[test]
fn parse_mode_mapping() {
    assert_eq!(telegram_parse_mode(ParseModeOpt::Plain), None);
    assert_eq!(telegram_parse_mode(ParseModeOpt::Html), Some(TelegramParseMode::Html));
    assert_eq!(
        telegram_parse_mode(ParseModeOpt::Markdown),
        Some(TelegramParseMode::MarkdownV2)
    );
}

#[test]
fn auto_escape_mapping() {
    assert!(matches!(auto_escape_for(ParseModeOpt::Plain), AutoEscapeMode::Disabled));
    match auto_escape_for(ParseModeOpt::Html) {
        AutoEscapeMode::Custom(t) => assert_eq!(t, "telegram_html"),
        _ => panic!("expected a custom mode"),
    }
    match auto_escape_for(ParseModeOpt::Markdown) {
        AutoEscapeMode::Custom(t) => assert_eq!(t, "telegram_markdown"),
        _ => panic!("expected a custom mode"),
    }
}

#[test]
fn log_level_names() {
    assert_eq!(LogLevel::Error.name(), "error");
    assert_eq!(LogLevel::Warn.name(), "warn");
    assert_eq!(LogLevel::Info.name(), "info");
    assert_eq!(LogLevel::Debug.name(), "debug");
    assert_eq!(LogLevel::Trace.name(), "trace");
}
