//! The console echo bot's conversation logic: one line of input in, one
//! reply and a state change out. Reading stdin and printing replies is
//! the surrounding program's job; the decision function here is pure.

use crate::commands::Command;
use crate::commands::IsCommand;
use crate::commands::spec_parse_command;
use crate::config::Config;
use crate::text::parse_u8;
use crate::text::parse_u8_spec;
use crate::text::u8_dec;
use crate::text::u8_to_string;
use vstd::prelude::*;
use vstd::string::StrSliceExecFns;
use vstd::string::StringExecFns;

verus! {

/// Console conversation state: the chosen repeat count, and whether the
/// next input line is awaited as a new count.
#[derive(Debug, Clone, PartialEq, Eq)]
pub struct State {
    pub repeat_number: Option<u8>,
    pub is_await_repeat_number: bool,
}

impl State {
    /// A chosen repeat count is always positive; zero is rejected at
    /// the point of assignment.
    pub open spec fn wf(&self) -> bool {
        self.repeat_number matches Some(n) ==> n >= 1
    }

    pub fn new() -> (r: Self)
        ensures
            r.repeat_number is None,
            !r.is_await_repeat_number,
            r.wf(),
    {
        State { repeat_number: None, is_await_repeat_number: false }
    }
}

/// The repeat count in force: the chosen one, or the configured default.
pub open spec fn spec_console_count(s: State, config: Config) -> u8 {
    match s.repeat_number {
        Some(n) => n,
        None => config.default_repeat_number,
    }
}

/// The echoed text: the input repeated `n` times, joined by newlines.
pub open spec fn spec_repeated(body: Seq<char>, n: nat) -> Seq<char>
    decreases n,
{
    if n <= 1 {
        body
    } else {
        spec_repeated(body, (n - 1) as nat) + "\n"@ + body
    }
}

/// The outcome of an input line while a repeat count is awaited: a
/// positive number is stored and confirmed; anything else — text, zero,
/// out of range — earns a retry message and leaves the state unchanged.
pub open spec fn spec_extract(input: Seq<char>, s: State) -> (Seq<char>, State) {
    match parse_u8_spec(input) {
        Some(n) => if n >= 1 {
            (
                "Repeat message count currently is: "@ + u8_dec(n as nat),
                State { repeat_number: Some(n), is_await_repeat_number: false },
            )
        } else {
            ("Try again input number"@, s)
        },
        None => ("Try again input number"@, s),
    }
}

/// The console bot's reply and state change for one line of input.
/// `None` ends the session; it is produced exactly by `/exit`.
pub open spec fn spec_respond(input: Seq<char>, s: State, config: Config) -> (
    Option<Seq<char>>,
    State,
) {
    let cmd = spec_parse_command(input);
    if cmd == Command::Exit {
        (None, s)
    } else if s.is_await_repeat_number {
        let outcome = spec_extract(input, s);
        (Some(outcome.0), outcome.1)
    } else if !(input.len() > 0 && input[0] == '/') {
        (Some(spec_repeated(input, spec_console_count(s, config) as nat)), s)
    } else if cmd == Command::Help {
        (Some(config.help_msg@), s)
    } else if cmd == Command::Repeat {
        (
            Some(
                "Currently repeat set: "@ + u8_dec(spec_console_count(s, config) as nat) + ". "@
                    + config.repeat_msg@,
            ),
            State { repeat_number: s.repeat_number, is_await_repeat_number: true },
        )
    } else {
        (
            Some("Unknown command: "@ + input + ". Supported commands: /help, /repeat, /exit"@),
            s,
        )
    }
}

/// Builds the echoed text for plain input: the input repeated the
/// effective count of times, newline-joined.
pub fn construct_repeated_message(input: &str, state: &State, config: &Config) -> (r: String)
    requires
        state.wf(),
        config.wf(),
    ensures
        r@ == spec_repeated(input@, spec_console_count(*state, *config) as nat),
{
    let count = match state.repeat_number {
        Some(n) => n,
        None => config.default_repeat_number,
    };
    let mut result = input.to_owned();
    let mut i: u8 = 1;
    while i < count
        invariant
            1 <= i <= count,
            result@ == spec_repeated(input@, i as nat),
        decreases count - i,
    {
        result.append("\n");
        result.append(input);
        proof {
            assert(result@ =~= spec_repeated(input@, (i + 1) as nat));
        }
        i = i + 1;
    }
    result
}

/// Consumes an input line offered as the new repeat count: stores and
/// confirms a positive number, or asks to try again.
pub fn extract_repeat_count(input: &str, state: &mut State) -> (r: String)
    requires
        old(state).wf(),
    ensures
        r@ == spec_extract(input@, *old(state)).0,
        *final(state) == spec_extract(input@, *old(state)).1,
        final(state).wf(),
{
    match parse_u8(input) {
        Some(count) => {
            if count == 0 {
                return "Try again input number".to_owned();
            }
            state.repeat_number = Some(count);
            state.is_await_repeat_number = false;
            let mut msg = "Repeat message count currently is: ".to_owned();
            let num = u8_to_string(count);
            msg.append(num.as_str());
            proof {
                assert(msg@ =~= spec_extract(input@, *old(state)).0);
            }
            msg
        },
        None => "Try again input number".to_owned(),
    }
}

/// Decides the reply to one line of console input and applies the state
/// change. `/exit` ends the session; while a count is awaited the input
/// is consumed as a number; plain text is echoed; the three commands
/// answer as configured.
pub fn respond_user(input: String, state: &mut State, config: &Config) -> (r: Option<String>)
    requires
        old(state).wf(),
        config.wf(),
    ensures
        *final(state) == spec_respond(input@, *old(state), *config).1,
        (match r {
            Some(resp) => spec_respond(input@, *old(state), *config).0 matches Some(v) && resp@
                == v,
            None => spec_respond(input@, *old(state), *config).0 is None,
        }),
        final(state).wf(),
{
    let command = Command::new(input.as_str());
    if command == Command::Exit {
        return None;
    }
    if state.is_await_repeat_number {
        return Some(extract_repeat_count(input.as_str(), state));
    }
    if !input.is_command() {
        return Some(construct_repeated_message(input.as_str(), state, config));
    }
    match command {
        Command::Help => Some(config.help_msg.clone()),
        Command::Repeat => {
            let count = match state.repeat_number {
                Some(n) => n,
                None => config.default_repeat_number,
            };
            state.is_await_repeat_number = true;
            let mut msg = "Currently repeat set: ".to_owned();
            let num = u8_to_string(count);
            msg.append(num.as_str());
            msg.append(". ");
            msg.append(config.repeat_msg.as_str());
            proof {
                assert(msg@ =~= "Currently repeat set: "@ + u8_dec(count as nat) + ". "@
                    + config.repeat_msg@);
            }
            Some(msg)
        },
        Command::Unknown => {
            let mut msg = "Unknown command: ".to_owned();
            msg.append(input.as_str());
            msg.append(". Supported commands: /help, /repeat, /exit");
            proof {
                assert(msg@ =~= "Unknown command: "@ + input@
                    + ". Supported commands: /help, /repeat, /exit"@);
            }
            Some(msg)
        },
        // Unreachable: `/exit` returned above. Answered as the session
        // end it would be.
        Command::Exit => None,
    }
}

/// An unrecognized slash command never matches the known commands: the
/// reply is the "Unknown command" message carrying the original input,
/// and the state does not change.
pub proof fn lemma_unknown_command_reply(input: Seq<char>, s: State, config: Config)
    requires
        input.len() > 0,
        input[0] == '/',
        input != "/help"@,
        input != "/exit"@,
        input != "/repeat"@,
        !s.is_await_repeat_number,
    ensures
        spec_parse_command(input) == Command::Unknown,
        spec_respond(input, s, config).0 == Some(
            "Unknown command: "@ + input + ". Supported commands: /help, /repeat, /exit"@,
        ),
        spec_respond(input, s, config).1 == s,
{
}

} // verus!
