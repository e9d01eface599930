//! The start-up configuration and the decisions taken from it.
use vstd::prelude::*;

use crate::escape::{html_escape_tag, markdown_escape_tag, html_tag, markdown_tag, AutoEscapeMode};
use crate::template::{unescape_template, unescaped};

verus! {

/// How messages sent to Telegram are marked up.
#[derive(Clone, Copy, Debug, PartialEq, Eq, Structural)]
pub enum ParseModeOpt {
    /// Plain text.
    Plain,
    /// Telegram HTML.
    Html,
    /// Telegram MarkdownV2.
    Markdown,
}

/// The parse mode that a Telegram message is sent with.
#[derive(Clone, Copy, Debug, PartialEq, Eq, Structural)]
pub enum TelegramParseMode {
    Html,
    MarkdownV2,
}

/// Whether `mode` is the auto-escape mode that the template engine uses
/// for the parse mode `p`: none for plain text, the custom mode
/// `telegram_html` for HTML and `telegram_markdown` for MarkdownV2.
pub open spec fn is_auto_escape_for(p: ParseModeOpt, mode: AutoEscapeMode) -> bool {
    match p {
        ParseModeOpt::Plain => mode is Disabled,
        ParseModeOpt::Html => mode matches AutoEscapeMode::Custom(tag) && tag@ == html_tag(),
        ParseModeOpt::Markdown => mode matches AutoEscapeMode::Custom(tag) && tag@ == markdown_tag(),
    }
}

/// The auto-escape mode with which templates are rendered for a parse mode.
pub fn auto_escape_for(p: ParseModeOpt) -> (mode: AutoEscapeMode)
    ensures
        is_auto_escape_for(p, mode),
{
    match p {
        ParseModeOpt::Plain => AutoEscapeMode::Disabled,
        ParseModeOpt::Html => AutoEscapeMode::Custom(html_escape_tag()),
        ParseModeOpt::Markdown => AutoEscapeMode::Custom(markdown_escape_tag()),
    }
}

/// The parse mode a Telegram message is sent with: none for plain text,
/// HTML for HTML, MarkdownV2 for Markdown.
pub fn telegram_parse_mode(p: ParseModeOpt) -> (r: Option<TelegramParseMode>)
    ensures
        r == (match p {
            ParseModeOpt::Plain => None,
            ParseModeOpt::Html => Some(TelegramParseMode::Html),
            ParseModeOpt::Markdown => Some(TelegramParseMode::MarkdownV2),
        }),
{
    match p {
        ParseModeOpt::Plain => None,
        ParseModeOpt::Html => Some(TelegramParseMode::Html),
        ParseModeOpt::Markdown => Some(TelegramParseMode::MarkdownV2),
    }
}

/// The level of detail of the log.
#[derive(Clone, Copy, Debug, PartialEq, Eq, Structural)]
pub enum LogLevel {
    Error,
    Warn,
    Info,
    Debug,
    Trace,
}

/// The name under which a log level is given on the command line.
pub open spec fn log_level_name(l: LogLevel) -> Seq<char> {
    match l {
        LogLevel::Error => "error"@,
        LogLevel::Warn => "warn"@,
        LogLevel::Info => "info"@,
        LogLevel::Debug => "debug"@,
        LogLevel::Trace => "trace"@,
    }
}

impl LogLevel {
    /// The name under which this level is given on the command line, which
    /// is also how it is shown.
    pub fn name(&self) -> (r: &'static str)
        ensures
            r@ == log_level_name(*self),
    {
        match self {
            LogLevel::Error => "error",
            LogLevel::Warn => "warn",
            LogLevel::Info => "info",
            LogLevel::Debug => "debug",
            LogLevel::Trace => "trace",
        }
    }
}

/// The settings of the syslog mode.
pub struct Config {
    pub bot_token: Option<String>,
    pub chat_id: Option<i64>,
    pub webhook_url: Option<String>,
    pub dm: bool,
    pub channel: Option<u32>,
    pub template: String,
    pub parse_mode: ParseModeOpt,
    pub syslog_host: String,
    pub syslog_port: u16,
    pub proxy_url: Option<String>,
    pub api_server: Option<String>,
}

/// Where received messages are forwarded to.
#[derive(Clone, Copy, Debug, PartialEq, Eq, Structural)]
pub struct Outputs {
    pub telegram: bool,
    pub webhook: bool,
}

/// Why the syslog mode does not start.
#[derive(Clone, Copy, Debug, PartialEq, Eq, Structural)]
pub enum StartupError {
    /// Neither Telegram (a bot token and a chat id) nor a webhook is configured.
    NoOutputConfigured,
}

impl Config {
    /// Whether messages go to Telegram: both a bot token and a chat id are set.
    pub open spec fn spec_use_telegram(&self) -> bool {
        self.bot_token is Some && self.chat_id is Some
    }

    /// Whether messages go to a webhook: a webhook URL is set.
    pub open spec fn spec_use_webhook(&self) -> bool {
        self.webhook_url is Some
    }

    /// The settings of the syslog mode, as given on the command line; the
    /// template has its escapes resolved.
    pub fn new(
        bot_token: Option<String>,
        chat_id: Option<i64>,
        webhook_url: Option<String>,
        dm: bool,
        channel: Option<u32>,
        template: String,
        parse_mode: ParseModeOpt,
        syslog_host: String,
        syslog_port: u16,
        proxy_url: Option<String>,
        api_server: Option<String>,
    ) -> (c: Config)
        ensures
            c.bot_token == bot_token,
            c.chat_id == chat_id,
            c.webhook_url == webhook_url,
            c.dm == dm,
            c.channel == channel,
            c.template@ == unescaped(template@),
            c.parse_mode == parse_mode,
            c.syslog_host == syslog_host,
            c.syslog_port == syslog_port,
            c.proxy_url == proxy_url,
            c.api_server == api_server,
    {
        let template = unescape_template(template);
        Config {
            bot_token,
            chat_id,
            webhook_url,
            dm,
            channel,
            template,
            parse_mode,
            syslog_host,
            syslog_port,
            proxy_url,
            api_server,
        }
    }

    /// Whether messages go to Telegram.
    pub fn use_telegram(&self) -> (r: bool)
        ensures
            r == self.spec_use_telegram(),
            r == (self.bot_token is Some && self.chat_id is Some),
    {
        self.bot_token.is_some() && self.chat_id.is_some()
    }

    /// Whether messages go to a webhook.
    pub fn use_webhook(&self) -> (r: bool)
        ensures
            r == self.spec_use_webhook(),
            r == (self.webhook_url is Some),
    {
        self.webhook_url.is_some()
    }

    /// The outputs that received messages are forwarded to; an error when
    /// there is none, in which case the syslog mode does not start.
    pub fn outputs(&self) -> (r: Result<Outputs, StartupError>)
        ensures
            r is Err <==> !self.spec_use_telegram() && !self.spec_use_webhook(),
            r matches Err(e) ==> e == StartupError::NoOutputConfigured,
            r matches Ok(o) ==> o.telegram == self.spec_use_telegram() && o.webhook
                == self.spec_use_webhook(),
            r is Err <==> (self.bot_token is None || self.chat_id is None)
                && self.webhook_url is None,
            r matches Ok(o) ==> o.telegram == (self.bot_token is Some && self.chat_id is Some)
                && o.webhook == (self.webhook_url is Some),
    {
        let telegram = self.use_telegram();
        let webhook = self.use_webhook();
        if !telegram && !webhook {
            Err(StartupError::NoOutputConfigured)
        } else {
            Ok(Outputs { telegram, webhook })
        }
    }
}

} // verus!
