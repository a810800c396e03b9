//! The turn data model: a role-tagged message unit of the conversation log.
use vstd::prelude::*;

verus! {

/// The author of one turn of the conversation.
#[derive(Clone, Copy, Debug, PartialEq, Eq, Structural)]
pub enum Role {
    System,
    User,
    Assistant,
}

/// One role-tagged message unit in the conversation log. Immutable once
/// created; turns form an append-only sequence.
#[derive(Debug)]
pub struct ChatTurn {
    pub role: Role,
    pub content: String,
}

/// The mathematical value of a turn: its role and the character sequence of
/// its content.
pub ghost struct TurnView {
    pub role: Role,
    pub content: Seq<char>,
}

impl View for ChatTurn {
    type V = TurnView;

    open spec fn view(&self) -> TurnView {
        TurnView { role: self.role, content: self.content@ }
    }
}

impl DeepView for ChatTurn {
    type V = TurnView;

    open spec fn deep_view(&self) -> TurnView {
        self@
    }
}

/// The fixed instruction text of the mandatory leading system turn.
pub open spec fn preamble_text() -> Seq<char> {
    "Be precise and concise. Write your messages in markdown. Write codeblocks in markdown."@
}

/// The system turn that every non-empty log starts with.
pub open spec fn system_turn() -> TurnView {
    TurnView { role: Role::System, content: preamble_text() }
}

/// A user turn carrying the given input text.
pub open spec fn user_turn(content: Seq<char>) -> TurnView {
    TurnView { role: Role::User, content }
}

/// An assistant turn carrying the given reply text.
pub open spec fn assistant_turn(content: Seq<char>) -> TurnView {
    TurnView { role: Role::Assistant, content }
}

/// Builds the system preamble turn.
pub fn make_system_turn() -> (t: ChatTurn)
    ensures
        t@ == system_turn(),
{
    ChatTurn {
        role: Role::System,
        content: String::from_str(
            "Be precise and concise. Write your messages in markdown. Write codeblocks in markdown.",
        ),
    }
}

} // verus!
