//! The main menu window.

use vstd::prelude::*;

use crate::toolkit::{InputAction, Message as MessageBase, OkAction};

verus! {

/// The main menu. It has no state of its own.
#[derive(Debug, PartialEq, Eq)]
pub struct MenuMain {}

/// Messages owned by the main menu.
#[derive(Debug, Clone, Copy, PartialEq, Eq)]
pub enum Message {
    Nothing,
    LoadGame,
    NewGame,
    Editors,
    Options,
    Credits,
    ExitGame,
}

impl MenuMain {
    pub fn new() -> (r: MenuMain)
        ensures
            r == (MenuMain {  }),
    {
        MenuMain {  }
    }

    /// Whether `r` is the menu's reply to `message`.
    pub open spec fn is_reply(message: MessageBase, r: MessageBase) -> bool {
        match message {
            MessageBase::MenuMain(Message::NewGame) => r matches MessageBase::OpenDialogueInput(
                s,
                a,
            ) && s@ == new_pilot_prompt() && a == InputAction::PilotNew,
            MessageBase::MenuMain(Message::ExitGame) => r is Quit,
            MessageBase::MenuMain(Message::Options) => r matches MessageBase::OpenDialogueOK(
                s,
                a,
            ) && s@ == not_implemented_text() && a == OkAction::Noop,
            _ => r is Nothing,
        }
    }

    pub fn update(&mut self, message: MessageBase) -> (r: MessageBase)
        ensures
            *final(self) == *old(self),
            MenuMain::is_reply(message, r),
    {
        match message {
            MessageBase::MenuMain(Message::NewGame) => MessageBase::OpenDialogueInput(
                String::from_str("What will you name your new pilot?"),
                InputAction::PilotNew,
            ),
            MessageBase::MenuMain(Message::ExitGame) => MessageBase::Quit,
            MessageBase::MenuMain(Message::Options) => MessageBase::OpenDialogueOK(
                String::from_str("Not implemented yet!"),
                OkAction::Noop,
            ),
            _ => MessageBase::Nothing,
        }
    }
}

pub open spec fn new_pilot_prompt() -> Seq<char> {
    "What will you name your new pilot?"@
}

pub open spec fn not_implemented_text() -> Seq<char> {
    "Not implemented yet!"@
}

/// The greeting shown once a pilot is named.
pub open spec fn pilot_greeting(name: Seq<char>) -> Seq<char> {
    "Your name is "@ + name + "!"@
}

/// Whether `r` is the reply to naming a pilot `name` (`accept`) or to
/// cancelling: a greeting whose OK closes both dialogues, or closing the
/// input dialogue.
pub open spec fn is_pilot_new_reply(accept: bool, name: Seq<char>, r: MessageBase) -> bool {
    if accept {
        r matches MessageBase::OpenDialogueOK(s, a) && s@ == pilot_greeting(name) && a
            == OkAction::CloseWindows(2)
    } else {
        r is CloseWindow
    }
}

/// The reply of the new-pilot dialogue.
pub fn pilot_new(accept: bool, name: String) -> (r: MessageBase)
    ensures
        is_pilot_new_reply(accept, name@, r),
{
    match accept {
        true => {
            let text = String::from_str("Your name is ").concat(name.as_str()).concat("!");
            MessageBase::OpenDialogueOK(text, OkAction::CloseWindows(2))
        },
        false => MessageBase::CloseWindow,
    }
}

} // verus!
