//! The validated application configuration: transport credentials,
//! backend identity, and the chat limits (prompt size, flush days,
//! history size). Reading a configuration file is the caller's job;
//! this module owns the validation rules.

use vstd::prelude::*;

verus! {

/// Why a configuration was rejected.
#[derive(Debug, Clone, Copy, PartialEq, Eq, Structural)]
pub enum Error {
    InvalidPromptSize,
    InvalidFlushDays,
    InvalidHistorySize,
}

/// Transport-layer credentials.
#[derive(Debug, Clone)]
pub struct Bot {
    pub discord_token: String,
}

/// The remote chat-completion backend's identity.
#[derive(Debug, Clone)]
pub struct AiProvider {
    pub api_key: String,
    pub model: String,
}

/// Chat limits.
#[derive(Debug, Clone, Copy, PartialEq, Eq, Structural)]
pub struct Chat {
    pub prompt_size: u16,
    pub flush_days: u8,
    pub history_size: u8,
}

/// The whole validated configuration.
#[derive(Debug, Clone)]
pub struct App {
    pub bot: Bot,
    pub chat: Chat,
    pub ai_provider: AiProvider,
}

/// The outcome of assembling a configuration: the first failing check,
/// in order, decides the error.
pub open spec fn spec_parse(bot: Bot, chat: Chat, ai_provider: AiProvider) -> Result<App, Error> {
    if !(255 <= chat.prompt_size <= 4096) {
        Err(Error::InvalidFlushDays)
    } else if chat.flush_days == 0 {
        Err(Error::InvalidFlushDays)
    } else if chat.history_size == 0 {
        Err(Error::InvalidHistorySize)
    } else {
        Ok(App { bot, chat, ai_provider })
    }
}

impl App {
    /// Assembles a configuration from its parts, rejecting a prompt
    /// size outside 255..=4096, zero flush days and a zero history
    /// size, in that order.
    pub fn parse(bot: Bot, chat: Chat, ai_provider: AiProvider) -> (r: Result<App, Error>)
        ensures
            r == spec_parse(bot, chat, ai_provider),
    {
        if !(255 <= chat.prompt_size && chat.prompt_size <= 4096) {
            return Err(Error::InvalidFlushDays);
        }
        if chat.flush_days == 0 {
            return Err(Error::InvalidFlushDays);
        }
        if chat.history_size == 0 {
            return Err(Error::InvalidHistorySize);
        }
        Ok(App { bot, chat, ai_provider })
    }
}

} // verus!
