//! Commands that the player types into the game's chat.

use vstd::prelude::*;
use vstd::string::StringExecFns;

verus! {

/// A command read from the game's chat.
#[derive(Debug, Clone, Copy, PartialEq, Eq, Structural)]
pub enum InsimCommand {
    ToggleRecording,
    AcceptMessage,
    NextChannel,
    PeviousChannel,
}

/// What the game connection reports to the session.
#[derive(Debug, Clone, Copy, PartialEq, Eq, Structural)]
pub enum InsimEvent {
    ToggleRecording,
    AcceptMessage,
    NextChannel,
    PeviousChannel,
    /// Whether the player is in a game session.
    IsInGame(bool),
}

impl InsimCommand {
    /// Reads the two commands that a plain chat line can give.
    pub fn from_string(cmd: String) -> (r: Option<InsimCommand>)
        ensures
            cmd@ == "stt talk"@ <==> r == Some(InsimCommand::ToggleRecording),
            cmd@ == "stt accept"@ <==> r == Some(InsimCommand::AcceptMessage),
            cmd@ != "stt talk"@ && cmd@ != "stt accept"@ <==> r is None,
    {
        proof {
            reveal_strlit("stt talk");
            reveal_strlit("stt accept");
            assert("stt talk"@.len() != "stt accept"@.len());
        }
        if cmd == String::from_str("stt talk") {
            Some(InsimCommand::ToggleRecording)
        } else if cmd == String::from_str("stt accept") {
            Some(InsimCommand::AcceptMessage)
        } else {
            None
        }
    }
}

impl InsimEvent {
    /// Reads a chat line into the command it gives, if any.
    pub fn from_string(cmd: String) -> (r: Option<InsimEvent>)
        ensures
            cmd@ == "stt talk"@ <==> r == Some(InsimEvent::ToggleRecording),
            cmd@ == "stt accept"@ <==> r == Some(InsimEvent::AcceptMessage),
            cmd@ == "stt nc"@ <==> r == Some(InsimEvent::NextChannel),
            cmd@ == "stt pc"@ <==> r == Some(InsimEvent::PeviousChannel),
            cmd@ != "stt talk"@ && cmd@ != "stt accept"@ && cmd@ != "stt nc"@ && cmd@ != "stt pc"@
                <==> r is None,
    {
        proof {
            reveal_strlit("stt talk");
            reveal_strlit("stt accept");
            reveal_strlit("stt nc");
            reveal_strlit("stt pc");
            assert("stt talk"@.len() != "stt accept"@.len());
            assert("stt talk"@.len() != "stt nc"@.len());
            assert("stt accept"@.len() != "stt nc"@.len());
            assert("stt nc"@[4] != "stt pc"@[4]);
        }
        if cmd == String::from_str("stt talk") {
            Some(InsimEvent::ToggleRecording)
        } else if cmd == String::from_str("stt accept") {
            Some(InsimEvent::AcceptMessage)
        } else if cmd == String::from_str("stt nc") {
            Some(InsimEvent::NextChannel)
        } else if cmd == String::from_str("stt pc") {
            Some(InsimEvent::PeviousChannel)
        } else {
            None
        }
    }
}

} // verus!
