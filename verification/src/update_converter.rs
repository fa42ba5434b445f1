//! Conversion of a raw API update into exactly one typed domain event.
//! The branch order is a priority policy: a bot-authored message is
//! ignored first, then text takes precedence over video, and a callback
//! query is considered only once the message-based branches are
//! exhausted.

use crate::client_types::RawUpdate;
use crate::commands::Command;
use crate::commands::IsCommand;
use crate::commands::spec_parse_command;
use vstd::prelude::*;

verus! {

/// One typed domain event, carrying the id of the update it came from.
#[derive(Debug, Clone, PartialEq, Eq)]
pub enum TelegramUpdate {
    Message { update_id: u64, chat_id: u64, content: MessageContent },
    CallbackQuery { update_id: u64, chat_id: u64, content: CallbackData },
    Ignore { update_id: u64 },
}

/// The parts of a callback query the handler needs: the opaque
/// acknowledgement id and the button payload.
#[derive(Debug, Clone, PartialEq, Eq)]
pub struct CallbackData {
    pub id: String,
    pub data: String,
}

/// The content of a chat-message event.
#[derive(Debug, Clone, PartialEq, Eq)]
pub enum MessageContent {
    Command(Command, String),
    Video { file_id: String },
    Text(String),
}

impl TelegramUpdate {
    /// The id of the update the event came from.
    pub open spec fn spec_update_id(self) -> u64 {
        match self {
            TelegramUpdate::Message { update_id, .. } => update_id,
            TelegramUpdate::CallbackQuery { update_id, .. } => update_id,
            TelegramUpdate::Ignore { update_id } => update_id,
        }
    }
}

/// Whether the update carries a message whose sender is flagged as a
/// bot. Such traffic is ignored so the bot never reacts to its own or
/// another bot's messages.
pub open spec fn is_bot_update(u: RawUpdate) -> bool {
    match u.message {
        Some(m) => match m.from {
            Some(user) => user.is_bot,
            None => false,
        },
        None => false,
    }
}

/// The event a raw update converts to, in the exact branch order of the
/// conversion: bot filter, text (commands first, with `/exit` falling
/// through to plain text since no Telegram command maps to it), video,
/// callback query, ignore.
pub open spec fn spec_convert(u: RawUpdate) -> TelegramUpdate {
    if is_bot_update(u) {
        TelegramUpdate::Ignore { update_id: u.update_id }
    } else {
        match u.message {
            Some(m) => match m.text {
                Some(t) => {
                    let c = spec_parse_command(t@);
                    if t.spec_is_command() && c != Command::Exit {
                        TelegramUpdate::Message {
                            update_id: u.update_id,
                            chat_id: m.chat.id,
                            content: MessageContent::Command(c, t),
                        }
                    } else {
                        TelegramUpdate::Message {
                            update_id: u.update_id,
                            chat_id: m.chat.id,
                            content: MessageContent::Text(t),
                        }
                    }
                },
                None => match m.video {
                    Some(v) => TelegramUpdate::Message {
                        update_id: u.update_id,
                        chat_id: m.chat.id,
                        content: MessageContent::Video { file_id: v.file_id },
                    },
                    None => spec_convert_callback(u),
                },
            },
            None => spec_convert_callback(u),
        }
    }
}

/// The callback-query and fall-through branches of conversion.
pub open spec fn spec_convert_callback(u: RawUpdate) -> TelegramUpdate {
    match u.callback_query {
        Some(q) => TelegramUpdate::CallbackQuery {
            update_id: u.update_id,
            chat_id: q.message.chat.id,
            content: CallbackData { id: q.id, data: q.data },
        },
        None => TelegramUpdate::Ignore { update_id: u.update_id },
    }
}

impl core::convert::From<RawUpdate> for TelegramUpdate {
    fn from(value: RawUpdate) -> (r: TelegramUpdate) {
        let is_bot_message = match &value.message {
            Some(msg) => match &msg.from {
                Some(user) => user.is_bot,
                None => false,
            },
            None => false,
        };
        if is_bot_message {
            return TelegramUpdate::Ignore { update_id: value.update_id };
        }
        if let Some(msg) = &value.message {
            if let Some(text) = &msg.text {
                if text.is_command() {
                    let command = Command::new(text.as_str());
                    if command != Command::Exit {
                        return TelegramUpdate::Message {
                            update_id: value.update_id,
                            chat_id: msg.chat.id,
                            content: MessageContent::Command(command, text.clone()),
                        };
                    }
                }
                return TelegramUpdate::Message {
                    update_id: value.update_id,
                    chat_id: msg.chat.id,
                    content: MessageContent::Text(text.clone()),
                };
            }
            if let Some(video) = &msg.video {
                return TelegramUpdate::Message {
                    update_id: value.update_id,
                    chat_id: msg.chat.id,
                    content: MessageContent::Video { file_id: video.file_id.clone() },
                };
            }
        }
        if let Some(query) = &value.callback_query {
            return TelegramUpdate::CallbackQuery {
                update_id: value.update_id,
                chat_id: query.message.chat.id,
                content: CallbackData { id: query.id.clone(), data: query.data.clone() },
            };
        }
        TelegramUpdate::Ignore { update_id: value.update_id }
    }
}

impl vstd::std_specs::convert::FromSpecImpl<RawUpdate> for TelegramUpdate {
    open spec fn obeys_from_spec() -> bool {
        true
    }

    open spec fn from_spec(v: RawUpdate) -> TelegramUpdate {
        spec_convert(v)
    }
}

} // verus!
