//! The update handler: given a domain event, the conversation state and
//! the configuration, it decides the outbound actions and the state
//! mutations. The decision is a verified function from plain values to a
//! plan of actions; issuing the actions goes through the `TelegramClient`
//! capability and aborts on the first transport failure.

use crate::client::TelegramClient;
use crate::client_types::Payload;
use crate::client_types::PayloadView;
use crate::client_types::RawUpdate;
use crate::commands::Command;
use crate::config::Config;
use crate::keyboard::ButtonView;
use crate::keyboard::InlineKeyboardButton;
use crate::keyboard::InlineKeyboardMarkup;
use crate::text::parse_u8;
use crate::text::parse_u8_spec;
use crate::text::u8_dec;
use crate::text::u8_to_string;
use crate::update_converter::CallbackData;
use crate::update_converter::MessageContent;
use crate::update_converter::TelegramUpdate;
use crate::update_converter::is_bot_update;
use crate::update_converter::spec_convert;
use std::collections::HashMap;
use vstd::prelude::*;
use vstd::string::StringExecFns;

verus! {

broadcast use vstd::std_specs::hash::group_hash_axioms;

/// The abstract value of the conversation state: the offset
/// low-watermark and the per-chat repeat overrides.
#[verifier::ext_equal]
pub ghost struct StateView {
    pub last_update_id: Option<u64>,
    pub repeat_numbers: Map<u64, u8>,
}

/// Per-chat conversation state: the id of the last handled update and
/// the per-chat overrides of the default repeat count. Created empty at
/// process start and mutated only by the update handler.
#[derive(Debug)]
pub struct TelegramState {
    pub last_update_id: Option<u64>,
    pub repeat_numbers: HashMap<u64, u8>,
}

impl View for TelegramState {
    type V = StateView;

    open spec fn view(&self) -> StateView {
        StateView {
            last_update_id: self.last_update_id,
            repeat_numbers: self.repeat_numbers@,
        }
    }
}

/// The repeat count for a chat: the stored override, or the supplied
/// default where none is stored.
pub open spec fn spec_repeat_count(m: Map<u64, u8>, chat_id: u64, default: u8) -> u8 {
    if m.contains_key(chat_id) {
        m[chat_id]
    } else {
        default
    }
}

impl TelegramState {
    /// Every stored override is a positive count.
    pub open spec fn wf(&self) -> bool {
        forall|c: u64| self@.repeat_numbers.contains_key(c) ==> self@.repeat_numbers[c] >= 1
    }

    pub fn new() -> (r: Self)
        ensures
            r@.last_update_id is None,
            r@.repeat_numbers == Map::<u64, u8>::empty(),
            r.wf(),
    {
        TelegramState { last_update_id: None, repeat_numbers: HashMap::new() }
    }

    /// Stores a per-chat override of the repeat count. The count must be
    /// positive; callers validate before calling.
    pub fn set_repeat_number(&mut self, chat_id: u64, number: u8)
        requires
            number >= 1,
        ensures
            final(self)@.repeat_numbers == old(self)@.repeat_numbers.insert(chat_id, number),
            final(self)@.last_update_id == old(self)@.last_update_id,
            old(self).wf() ==> final(self).wf(),
    {
        self.repeat_numbers.insert(chat_id, number);
        proof {
            if old(self).wf() {
                assert forall|c: u64|
                    self@.repeat_numbers.contains_key(c) implies self@.repeat_numbers[c]
                    >= 1 by {
                    if c != chat_id {
                        assert(old(self)@.repeat_numbers.contains_key(c));
                    }
                }
            }
        }
    }

    /// Looks up the repeat count for a chat, falling back to the
    /// supplied default where no override is stored.
    pub fn get_repeat_count(&self, chat_id: u64, default: u8) -> (r: u8)
        ensures
            r == spec_repeat_count(self@.repeat_numbers, chat_id, default),
    {
        match self.repeat_numbers.get(&chat_id) {
            Some(n) => *n,
            None => default,
        }
    }

    /// Stores the id of a handled update as the new offset
    /// low-watermark. The poll cycle feeds updates in received order, so
    /// across a run the watermark never decreases.
    pub fn advance_offset(&mut self, update_id: u64)
        ensures
            final(self)@.last_update_id == Some(update_id),
            final(self)@.repeat_numbers == old(self)@.repeat_numbers,
            old(self).wf() ==> final(self).wf(),
    {
        self.last_update_id = Some(update_id);
    }
}

/// One outbound call the handler decided on.
#[derive(Debug, Clone, PartialEq, Eq)]
pub enum Action {
    /// Send a payload to a chat.
    Send { chat_id: u64, payload: Payload },
    /// Acknowledge a callback query, surfacing `text` as a notice.
    AnswerCallback { id: String, text: String },
}

/// The abstract value of an outbound call.
pub ghost enum ActionView {
    Send { chat_id: u64, payload: PayloadView },
    AnswerCallback { id: Seq<char>, text: Seq<char> },
}

impl View for Action {
    type V = ActionView;

    open spec fn view(&self) -> ActionView {
        match self {
            Action::Send { chat_id, payload } => ActionView::Send {
                chat_id: *chat_id,
                payload: payload@,
            },
            Action::AnswerCallback { id, text } => ActionView::AnswerCallback {
                id: id@,
                text: text@,
            },
        }
    }
}

impl DeepView for Action {
    type V = ActionView;

    open spec fn deep_view(&self) -> ActionView {
        self.view()
    }
}

/// The reply to `/repeat`: the configured template, then the current
/// count on a second line.
pub open spec fn spec_repeat_prompt(repeat_msg: Seq<char>, count: u8) -> Seq<char> {
    repeat_msg + "\nCurrent repeat number is "@ + u8_dec(count as nat)
}

/// The reply to an unrecognized command, carrying the original input.
pub open spec fn spec_unknown_reply(raw: Seq<char>) -> Seq<char> {
    "get unknown command: "@ + raw
}

/// The confirmation notice after a repeat count change.
pub open spec fn spec_callback_ack(n: u8) -> Seq<char> {
    "Repeats number was changed to "@ + u8_dec(n as nat)
}

/// What a callback payload sets the repeat count to: its numeric value,
/// provided it parses and is positive. The buttons are generated by the
/// bot itself, but malformed input still fails closed.
pub open spec fn spec_callback_new_count(data: Seq<char>) -> Option<u8> {
    match parse_u8_spec(data) {
        Some(n) => if n >= 1 {
            Some(n)
        } else {
            None
        },
        None => None,
    }
}

/// The one row of count-selection buttons, labelled and valued "1".."5".
pub open spec fn spec_count_buttons() -> Seq<ButtonView> {
    Seq::new(
        5,
        |i: int| ButtonView { text: u8_dec((i + 1) as nat), callback_data: u8_dec((i + 1) as nat) },
    )
}

/// The inline keyboard offered with `/repeat`.
pub open spec fn spec_count_keyboard() -> Seq<Seq<ButtonView>> {
    seq![spec_count_buttons()]
}

/// The actions for a command message.
pub open spec fn spec_command_actions(
    config: Config,
    m: Map<u64, u8>,
    chat_id: u64,
    c: Command,
    raw: Seq<char>,
) -> Seq<ActionView> {
    match c {
        Command::Help => seq![
            ActionView::Send { chat_id, payload: PayloadView::Text(config.help_msg@) },
        ],
        Command::Repeat => seq![
            ActionView::Send {
                chat_id,
                payload: PayloadView::TextWithKeyboard(
                    spec_count_keyboard(),
                    spec_repeat_prompt(
                        config.repeat_msg@,
                        spec_repeat_count(m, chat_id, config.default_repeat_number),
                    ),
                ),
            },
        ],
        Command::Unknown => seq![
            ActionView::Send { chat_id, payload: PayloadView::Text(spec_unknown_reply(raw)) },
        ],
        // No Telegram command maps to Exit; conversion never emits it,
        // and a defensive handler does nothing on it.
        Command::Exit => seq![],
    }
}

/// The actions for a callback query: one acknowledgement when the
/// payload is a positive count, nothing otherwise.
pub open spec fn spec_callback_actions(id: Seq<char>, data: Seq<char>) -> Seq<ActionView> {
    match spec_callback_new_count(data) {
        Some(n) => seq![ActionView::AnswerCallback { id, text: spec_callback_ack(n) }],
        None => seq![],
    }
}

/// The exact sequence of outbound actions one event produces, given the
/// stored overrides and the configuration.
pub open spec fn spec_actions(config: Config, m: Map<u64, u8>, u: TelegramUpdate) -> Seq<
    ActionView,
> {
    match u {
        TelegramUpdate::Ignore { .. } => seq![],
        TelegramUpdate::Message { update_id, chat_id, content } => {
            let count = spec_repeat_count(m, chat_id, config.default_repeat_number);
            match content {
                MessageContent::Text(body) => Seq::new(
                    count as nat,
                    |i: int| ActionView::Send { chat_id, payload: PayloadView::Text(body@) },
                ),
                MessageContent::Video { file_id } => Seq::new(
                    count as nat,
                    |i: int| ActionView::Send { chat_id, payload: PayloadView::Video(file_id@) },
                ),
                MessageContent::Command(c, raw) => spec_command_actions(
                    config,
                    m,
                    chat_id,
                    c,
                    raw@,
                ),
            }
        },
        TelegramUpdate::CallbackQuery { update_id, chat_id, content } => spec_callback_actions(
            content.id@,
            content.data@,
        ),
    }
}

/// How one event changes the stored overrides: a callback query with a
/// positive numeric payload stores it for its chat; nothing else
/// touches the map.
pub open spec fn spec_repeat_map_after(m: Map<u64, u8>, u: TelegramUpdate) -> Map<u64, u8> {
    match u {
        TelegramUpdate::CallbackQuery { chat_id, content, .. } => match spec_callback_new_count(
            content.data@,
        ) {
            Some(n) => m.insert(chat_id, n),
            None => m,
        },
        _ => m,
    }
}

proof fn lemma_deep_view_push<T: DeepView>(pre: Vec<T>, post: Vec<T>, a: T)
    requires
        post@ == pre@.push(a),
    ensures
        post.deep_view() == pre.deep_view().push(a.deep_view()),
{
    assert(post.deep_view() =~= pre.deep_view().push(a.deep_view())) by {
        assert forall|j: int| 0 <= j < post@.len() implies post.deep_view()[j] == pre.deep_view()
            .push(a.deep_view())[j] by {
            if j < pre@.len() {
                assert(post@[j] == pre@[j]);
            } else {
                assert(post@[j] == a);
            }
        }
    }
}

/// Builds the inline keyboard offered with `/repeat`: one row of
/// buttons "1".."5", each carrying its label as callback payload.
pub fn construct_inline_keyboard() -> (k: InlineKeyboardMarkup)
    ensures
        k@ == spec_count_keyboard(),
{
    let mut markup = InlineKeyboardMarkup::new();
    let mut buttons: Vec<InlineKeyboardButton> = Vec::new();
    let mut i: u8 = 1;
    while i < 6
        invariant
            1 <= i <= 6,
            buttons.deep_view() =~= spec_count_buttons().take(i - 1),
        decreases 6 - i,
    {
        let label = u8_to_string(i);
        let data = u8_to_string(i);
        let b = InlineKeyboardButton::new(label, data);
        let ghost pre = buttons;
        let ghost bv = b;
        buttons.push(b);
        proof {
            lemma_deep_view_push(pre, buttons, bv);
            assert(buttons.deep_view() =~= spec_count_buttons().take(i as int));
        }
        i = i + 1;
    }
    proof {
        assert(spec_count_buttons().take(5) =~= spec_count_buttons());
    }
    markup.add(buttons);
    proof {
        assert(markup@ =~= spec_count_keyboard());
    }
    markup
}

/// `count` send actions carrying the same text to one chat.
fn text_send_actions(chat_id: u64, body: &String, count: u8) -> (r: Vec<Action>)
    ensures
        r.deep_view() == Seq::new(
            count as nat,
            |i: int| (ActionView::Send { chat_id, payload: PayloadView::Text(body@) }),
        ),
{
    let mut r: Vec<Action> = Vec::new();
    let mut i: u8 = 0;
    while i < count
        invariant
            0 <= i <= count,
            r.deep_view() =~= Seq::new(
                i as nat,
                |j: int| (ActionView::Send { chat_id, payload: PayloadView::Text(body@) }),
            ),
        decreases count - i,
    {
        let a = Action::Send { chat_id, payload: Payload::Text(body.clone()) };
        let ghost pre = r;
        let ghost av = a;
        r.push(a);
        proof {
            lemma_deep_view_push(pre, r, av);
            assert(r.deep_view() =~= Seq::new(
                (i + 1) as nat,
                |j: int| (ActionView::Send { chat_id, payload: PayloadView::Text(body@) }),
            ));
        }
        i = i + 1;
    }
    r
}

/// `count` send actions carrying the same video to one chat.
fn video_send_actions(chat_id: u64, file_id: &String, count: u8) -> (r: Vec<Action>)
    ensures
        r.deep_view() == Seq::new(
            count as nat,
            |i: int| (ActionView::Send { chat_id, payload: PayloadView::Video(file_id@) }),
        ),
{
    let mut r: Vec<Action> = Vec::new();
    let mut i: u8 = 0;
    while i < count
        invariant
            0 <= i <= count,
            r.deep_view() =~= Seq::new(
                i as nat,
                |j: int| (ActionView::Send { chat_id, payload: PayloadView::Video(file_id@) }),
            ),
        decreases count - i,
    {
        let a = Action::Send { chat_id, payload: Payload::Video(file_id.clone()) };
        let ghost pre = r;
        let ghost av = a;
        r.push(a);
        proof {
            lemma_deep_view_push(pre, r, av);
            assert(r.deep_view() =~= Seq::new(
                (i + 1) as nat,
                |j: int| (ActionView::Send { chat_id, payload: PayloadView::Video(file_id@) }),
            ));
        }
        i = i + 1;
    }
    r
}

/// The actions for a command message: help text, the repeat prompt with
/// its keyboard, or the unknown-command reply.
fn command_actions(
    config: &Config,
    state: &TelegramState,
    command: Command,
    initial_msg: String,
    chat_id: u64,
) -> (r: Vec<Action>)
    ensures
        r.deep_view() == spec_command_actions(
            *config,
            state@.repeat_numbers,
            chat_id,
            command,
            initial_msg@,
        ),
{
    match command {
        Command::Help => {
            let mut r: Vec<Action> = Vec::new();
            r.push(Action::Send { chat_id, payload: Payload::Text(config.help_msg.clone()) });
            proof {
                assert(r.deep_view() =~= spec_command_actions(
                    *config,
                    state@.repeat_numbers,
                    chat_id,
                    command,
                    initial_msg@,
                ));
            }
            r
        },
        Command::Repeat => {
            let count = state.get_repeat_count(chat_id, config.default_repeat_number);
            let mut msg = config.repeat_msg.clone();
            msg.append("\nCurrent repeat number is ");
            let num = u8_to_string(count);
            msg.append(num.as_str());
            proof {
                assert(msg@ =~= spec_repeat_prompt(config.repeat_msg@, count));
            }
            let mut r: Vec<Action> = Vec::new();
            r.push(
                Action::Send {
                    chat_id,
                    payload: Payload::TextWithKeyboard(construct_inline_keyboard(), msg),
                },
            );
            proof {
                assert(r.deep_view() =~= spec_command_actions(
                    *config,
                    state@.repeat_numbers,
                    chat_id,
                    command,
                    initial_msg@,
                ));
            }
            r
        },
        Command::Unknown => {
            let mut msg = "get unknown command: ".to_owned();
            msg.append(initial_msg.as_str());
            proof {
                assert(msg@ =~= spec_unknown_reply(initial_msg@));
            }
            let mut r: Vec<Action> = Vec::new();
            r.push(Action::Send { chat_id, payload: Payload::Text(msg) });
            proof {
                assert(r.deep_view() =~= spec_command_actions(
                    *config,
                    state@.repeat_numbers,
                    chat_id,
                    command,
                    initial_msg@,
                ));
            }
            r
        },
        Command::Exit => {
            let r: Vec<Action> = Vec::new();
            proof {
                assert(r.deep_view() =~= spec_command_actions(
                    *config,
                    state@.repeat_numbers,
                    chat_id,
                    command,
                    initial_msg@,
                ));
            }
            r
        },
    }
}

/// The actions and state change for a callback query: a positive
/// numeric payload stores the new count and is acknowledged; anything
/// else fails closed, leaving the overrides untouched.
fn callback_actions(state: &mut TelegramState, chat_id: u64, content: CallbackData) -> (r: Vec<
    Action,
>)
    ensures
        r.deep_view() == spec_callback_actions(content.id@, content.data@),
        final(state)@.repeat_numbers == (match spec_callback_new_count(content.data@) {
            Some(n) => old(state)@.repeat_numbers.insert(chat_id, n),
            None => old(state)@.repeat_numbers,
        }),
        final(state)@.last_update_id == old(state)@.last_update_id,
        old(state).wf() ==> final(state).wf(),
{
    let parsed = parse_u8(content.data.as_str());
    match parsed {
        Some(n) => {
            if n >= 1 {
                state.set_repeat_number(chat_id, n);
                let mut answer = "Repeats number was changed to ".to_owned();
                let num = u8_to_string(n);
                answer.append(num.as_str());
                proof {
                    assert(answer@ =~= spec_callback_ack(n));
                }
                let mut r: Vec<Action> = Vec::new();
                r.push(Action::AnswerCallback { id: content.id, text: answer });
                proof {
                    assert(r.deep_view() =~= spec_callback_actions(content.id@, content.data@));
                }
                r
            } else {
                let r: Vec<Action> = Vec::new();
                proof {
                    assert(r.deep_view() =~= spec_callback_actions(content.id@, content.data@));
                }
                r
            }
        },
        None => {
            let r: Vec<Action> = Vec::new();
            proof {
                assert(r.deep_view() =~= spec_callback_actions(content.id@, content.data@));
            }
            r
        },
    }
}

/// Applies one event to the conversation state and returns the plan of
/// outbound actions it produces. The offset advances to the event's
/// update id unconditionally — even for ignored traffic — so that such
/// updates are never refetched.
pub fn apply_update(config: &Config, state: &mut TelegramState, update: TelegramUpdate) -> (r: Vec<
    Action,
>)
    ensures
        r.deep_view() == spec_actions(*config, old(state)@.repeat_numbers, update),
        final(state)@.repeat_numbers == spec_repeat_map_after(old(state)@.repeat_numbers, update),
        final(state)@.last_update_id == Some(update.spec_update_id()),
        old(state).wf() ==> final(state).wf(),
{
    match update {
        TelegramUpdate::Ignore { update_id } => {
            state.advance_offset(update_id);
            let r: Vec<Action> = Vec::new();
            proof {
                assert(r.deep_view() =~= Seq::<ActionView>::empty());
                assert(spec_actions(*config, old(state)@.repeat_numbers, update) =~= Seq::<
                    ActionView,
                >::empty());
            }
            r
        },
        TelegramUpdate::Message { update_id, chat_id, content } => {
            let r = match content {
                MessageContent::Text(body) => {
                    let count = state.get_repeat_count(chat_id, config.default_repeat_number);
                    text_send_actions(chat_id, &body, count)
                },
                MessageContent::Video { file_id } => {
                    let count = state.get_repeat_count(chat_id, config.default_repeat_number);
                    video_send_actions(chat_id, &file_id, count)
                },
                MessageContent::Command(command, initial_msg) => command_actions(
                    config,
                    state,
                    command,
                    initial_msg,
                    chat_id,
                ),
            };
            state.advance_offset(update_id);
            r
        },
        TelegramUpdate::CallbackQuery { update_id, chat_id, content } => {
            let r = callback_actions(state, chat_id, content);
            state.advance_offset(update_id);
            r
        },
    }
}

/// After storing an override for a chat, looking the chat up returns
/// that override, whatever default is supplied.
pub proof fn lemma_set_then_get(m: Map<u64, u8>, chat_id: u64, n: u8, default: u8)
    requires
        n >= 1,
    ensures
        spec_repeat_count(m.insert(chat_id, n), chat_id, default) == n,
{
}

/// A message from a sender flagged as a bot never produces an outbound
/// action, whatever the configuration and the stored overrides.
pub proof fn lemma_bot_message_never_sends(config: Config, m: Map<u64, u8>, u: RawUpdate)
    requires
        is_bot_update(u),
    ensures
        spec_actions(config, m, spec_convert(u)) == Seq::<ActionView>::empty(),
{
    assert(spec_actions(config, m, spec_convert(u)) =~= Seq::<ActionView>::empty());
}

/// Conversion tags every event with the id of the update it came from.
pub proof fn lemma_convert_preserves_id(u: RawUpdate)
    ensures
        spec_convert(u).spec_update_id() == u.update_id,
{
}

/// The handler capability: one raw update in, outbound calls and state
/// mutations out. Whatever the transport outcome, the offset advances to
/// the update's id and the overrides change exactly as the converted
/// event dictates.
pub trait Handler<T: TelegramClient> {
    fn handle(&self, config: &Config, state: &mut TelegramState, raw_update: RawUpdate) -> (r:
        Result<(), T::E>)
        ensures
            final(state)@.last_update_id == Some(raw_update.update_id),
            final(state)@.repeat_numbers == spec_repeat_map_after(
                old(state)@.repeat_numbers,
                spec_convert(raw_update),
            ),
            old(state).wf() ==> final(state).wf(),
    ;
}

/// The handler over a transport client: it converts the raw update,
/// applies it to the state, and issues the planned actions in order,
/// propagating the first transport failure.
pub struct TelegramHandler<'b, T: TelegramClient> {
    pub client: &'b T,
}

impl<'b, T: TelegramClient> TelegramHandler<'b, T> {
    pub fn new(client: &'b T) -> (r: Self)
        ensures
            r.client == client,
    {
        Self { client }
    }

    /// Issues the planned actions in order, stopping at the first
    /// transport failure and propagating it.
    fn send_all(&self, actions: Vec<Action>) -> (r: Result<(), T::E>) {
        let mut actions = actions;
        while actions.len() > 0
            decreases actions@.len(),
        {
            let a = actions.remove(0);
            match a {
                Action::Send { chat_id, payload } => {
                    match self.client.send(chat_id, payload) {
                        Ok(_) => {},
                        Err(e) => {
                            return Err(e);
                        },
                    }
                },
                Action::AnswerCallback { id, text } => {
                    match self.client.answer_callback_query(id.as_str(), text.as_str()) {
                        Ok(_) => {},
                        Err(e) => {
                            return Err(e);
                        },
                    }
                },
            }
        }
        Ok(())
    }
}

impl<'b, T: TelegramClient> Handler<T> for TelegramHandler<'b, T> {
    fn handle(&self, config: &Config, state: &mut TelegramState, raw_update: RawUpdate) -> (r:
        Result<(), T::E>) {
        proof {
            lemma_convert_preserves_id(raw_update);
        }
        let update = TelegramUpdate::from(raw_update);
        let actions = apply_update(config, state, update);
        self.send_all(actions)
    }
}

} // verus!
