//! The data shapes of the Telegram Bot API as the core sees them: raw
//! updates and their parts, outbound payloads, the command menu entry,
//! and the success/failure envelope every API response arrives in.

use crate::commands::Command;
use crate::keyboard::ButtonView;
use crate::keyboard::InlineKeyboardMarkup;
use vstd::prelude::*;

verus! {

/// The response envelope of the remote API: either a result value or an
/// error report.
#[derive(Debug)]
pub enum TelegramResponse<T> {
    Success { result: T },
    Failure(TelegramApiError),
}

/// An error the remote API itself reported, with its code and
/// human-readable description.
#[derive(Debug, Clone, PartialEq, Eq)]
pub struct TelegramApiError {
    pub error_code: u8,
    pub description: String,
}

/// The failure taxonomy of the transport client. The three kinds stay
/// distinguishable to callers: a transport-level failure, a response
/// body that did not decode, and an error the remote API reported.
#[derive(Debug, Clone, PartialEq, Eq)]
pub enum ClientError {
    /// The HTTP call itself failed; carries the collaborator's report.
    Http(String),
    /// The response body did not match the expected envelope shape.
    Serialize(String),
    /// The remote API reported an error code and description.
    Api(TelegramApiError),
}

impl<T> TelegramResponse<T> {
    pub fn into_result(self) -> (r: Result<T, ClientError>)
        ensures
            match self {
                TelegramResponse::Success { result } => r matches Ok(t) && t == result,
                TelegramResponse::Failure(e) => r matches Err(ce) && ce == ClientError::Api(e),
            },
    {
        match self {
            Self::Success { result } => Ok(result),
            Self::Failure(error) => Err(ClientError::Api(error)),
        }
    }
}

#[derive(Debug, Clone, PartialEq, Eq)]
pub struct Chat {
    pub id: u64,
}

#[derive(Debug, Clone, PartialEq, Eq)]
pub struct User {
    pub id: u64,
    pub is_bot: bool,
}

#[derive(Debug, Clone, PartialEq, Eq)]
pub struct Video {
    pub file_id: String,
}

/// An incoming chat message: its chat, optionally its sender, and
/// optionally a video or a text. A message with neither text nor video
/// is valid and is ignored by conversion.
#[derive(Debug, Clone, PartialEq, Eq)]
pub struct Message {
    pub chat: Chat,
    pub from: Option<User>,
    pub video: Option<Video>,
    pub text: Option<String>,
}

/// A button-press event on a previously sent inline keyboard: an opaque
/// acknowledgement id, the message the keyboard hung on, and the
/// button's payload.
#[derive(Debug, Clone, PartialEq, Eq)]
pub struct CallbackQuery {
    pub id: String,
    pub message: Message,
    pub data: String,
}

/// One discrete event delivered by the remote API. At most one of the
/// optional parts is populated per real update; both absent means an
/// unrecognized update type.
#[derive(Debug, Clone, PartialEq, Eq)]
pub struct RawUpdate {
    pub update_id: u64,
    pub message: Option<Message>,
    pub callback_query: Option<CallbackQuery>,
}

/// An outbound message payload; each variant maps to a distinct API
/// method with a distinct body shape.
#[derive(Debug, Clone, PartialEq, Eq)]
pub enum Payload {
    Text(String),
    Video(String),
    TextWithKeyboard(InlineKeyboardMarkup, String),
}

/// The abstract value of an outbound payload.
pub ghost enum PayloadView {
    Text(Seq<char>),
    Video(Seq<char>),
    TextWithKeyboard(Seq<Seq<ButtonView>>, Seq<char>),
}

impl View for Payload {
    type V = PayloadView;

    open spec fn view(&self) -> PayloadView {
        match self {
            Payload::Text(t) => PayloadView::Text(t@),
            Payload::Video(f) => PayloadView::Video(f@),
            Payload::TextWithKeyboard(k, t) => PayloadView::TextWithKeyboard(k@, t@),
        }
    }
}

impl DeepView for Payload {
    type V = PayloadView;

    open spec fn deep_view(&self) -> PayloadView {
        self.view()
    }
}

/// A command-menu entry: the command and the description shown for it.
#[derive(Debug, Clone, PartialEq, Eq)]
pub struct TelegramCommand {
    pub command: Command,
    pub description: String,
}

impl TelegramCommand {
    pub fn new(command: Command, description: String) -> (r: Self)
        ensures
            r.command == command,
            r.description == description,
    {
        Self { command, description }
    }
}

} // verus!
