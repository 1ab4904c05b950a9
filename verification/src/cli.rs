//! The interactive mode: what a line typed at the prompt asks for.

use crate::deps::{trimmed, without_outer_whitespace};
use crate::text::same_text;
use vstd::prelude::*;

verus! {

/// What a line typed at the prompt asks for.
#[derive(Debug, PartialEq, Eq)]
pub enum CliCommand {
    /// Leave the interactive mode.
    Quit,
    /// Send this text on the system topic.
    Send(String),
}

pub enum CliCommandView {
    Quit,
    Send(Seq<char>),
}

impl View for CliCommand {
    type V = CliCommandView;

    open spec fn view(&self) -> CliCommandView {
        match self {
            CliCommand::Quit => CliCommandView::Quit,
            CliCommand::Send(text) => CliCommandView::Send(text@),
        }
    }
}

/// What a line asks for once the whitespace around it is gone: nothing at
/// all and the word `quit` end the session, anything else is sent as it is.
pub open spec fn command_of(text: Seq<char>) -> CliCommandView {
    if text.len() == 0 || text == "quit"@ {
        CliCommandView::Quit
    } else {
        CliCommandView::Send(text)
    }
}

/// Reads a line that has no whitespace around it.
pub fn command_from_trimmed(text: &str) -> (command: CliCommand)
    ensures
        command@ == command_of(text@),
{
    if same_text(text, "") {
        proof {
            reveal_strlit("");
        }
        CliCommand::Quit
    } else if same_text(text, "quit") {
        CliCommand::Quit
    } else {
        proof {
            reveal_strlit("");
            assert(text@.len() != 0) by {
                if text@.len() == 0 {
                    assert(text@ =~= ""@);
                }
            }
        }
        CliCommand::Send(text.to_owned())
    }
}

/// Reads a line as it was typed, whitespace and line end included.
pub fn cli_command(line: &str) -> (command: CliCommand)
    ensures
        command@ == command_of(trimmed(line@)),
{
    command_from_trimmed(without_outer_whitespace(line))
}

} // verus!
