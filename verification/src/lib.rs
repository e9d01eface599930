//! Message-forwarding core: template preparation, value escaping for the
//! Telegram parse modes, and the start-up decisions taken from the
//! command-line configuration.
pub mod text;
pub mod template;
pub mod escape;
pub mod config;
pub mod laws;
