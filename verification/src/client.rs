//! The transport capability: the four outbound API operations the core
//! needs. The handler and poll cycle depend only on this trait; a real
//! HTTP client or a test double implements it outside the library.

use crate::client_types::Message;
use crate::client_types::Payload;
use crate::client_types::RawUpdate;
use crate::client_types::TelegramCommand;
use vstd::prelude::*;
use vstd::string::StringExecFns;

verus! {

pub trait TelegramClient {
    type E;

    /// Long-poll fetch of the updates with id at least `offset`.
    fn get_updates(&self, offset: u64) -> Result<Vec<RawUpdate>, Self::E>;

    /// Sends one payload to one chat.
    fn send(&self, chat_id: u64, payload: Payload) -> Result<Message, Self::E>;

    /// Confirms a callback query and surfaces `text` as a transient notice.
    fn answer_callback_query(&self, id: &str, text: &str) -> Result<bool, Self::E>;

    /// Advertises the bot's command menu.
    fn set_commands(&self, commands: Vec<TelegramCommand>) -> Result<bool, Self::E>;
}

/// The URL of one API method call: `{base_url}/bot{token}/{method}`.
pub fn method_url(base_url: &str, token: &str, method: &str) -> (r: String)
    ensures
        r@ == base_url@ + "/bot"@ + token@ + "/"@ + method@,
{
    let mut r = base_url.to_owned();
    r.append("/bot");
    r.append(token);
    r.append("/");
    r.append(method);
    proof {
        assert(r@ =~= base_url@ + "/bot"@ + token@ + "/"@ + method@);
    }
    r
}

} // verus!
