//! The command parser: classifies raw chat text as one of the known bot
//! commands, or as `Unknown`. Matching is exact — an unrecognized
//! slash-prefixed input must surface as a distinct "unknown command"
//! branch rather than be treated as message content.

use crate::text::str_eq;
use vstd::prelude::*;
use vstd::string::StrSliceExecFns;

verus! {

#[derive(Debug, Clone, PartialEq, Eq, Structural)]
pub enum Command {
    Exit,
    Help,
    Repeat,
    Unknown,
}

/// What `Command::new` returns: exact matches of the three known
/// commands; everything else is `Unknown`.
pub open spec fn spec_parse_command(s: Seq<char>) -> Command {
    if s == "/help"@ {
        Command::Help
    } else if s == "/exit"@ {
        Command::Exit
    } else if s == "/repeat"@ {
        Command::Repeat
    } else {
        Command::Unknown
    }
}

impl Command {
    /// The text a command is advertised under; `Unknown` has none.
    pub open spec fn spec_string(self) -> Seq<char> {
        match self {
            Command::Help => "/help"@,
            Command::Exit => "/exit"@,
            Command::Repeat => "/repeat"@,
            Command::Unknown => ""@,
        }
    }

    pub fn new(input: &str) -> (c: Command)
        ensures
            c == spec_parse_command(input@),
    {
        if str_eq(input, "/help") {
            Command::Help
        } else if str_eq(input, "/exit") {
            Command::Exit
        } else if str_eq(input, "/repeat") {
            Command::Repeat
        } else {
            Command::Unknown
        }
    }

    pub fn into_string(self) -> (r: String)
        ensures
            r@ == self.spec_string(),
    {
        match self {
            Command::Help => "/help".to_owned(),
            Command::Exit => "/exit".to_owned(),
            Command::Repeat => "/repeat".to_owned(),
            Command::Unknown => "".to_owned(),
        }
    }
}

impl core::str::FromStr for Command {
    type Err = ();

    fn from_str(s: &str) -> Result<Self, Self::Err> {
        Ok(Command::new(s))
    }
}

/// Whether a text is addressed to the bot as a command: it begins
/// with a slash.
pub trait IsCommand {
    spec fn spec_is_command(&self) -> bool;

    fn is_command(&self) -> (r: bool)
        ensures
            r == self.spec_is_command(),
    ;
}

impl IsCommand for String {
    open spec fn spec_is_command(&self) -> bool {
        self@.len() > 0 && self@[0] == '/'
    }

    fn is_command(&self) -> (r: bool) {
        let s = self.as_str();
        if s.unicode_len() == 0 {
            false
        } else {
            s.get_char(0) == '/'
        }
    }
}

} // verus!
