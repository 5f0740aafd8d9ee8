//! Script-driven windows, and resuming the script that waits on one.

use vstd::prelude::*;

use crate::toolkit::{dispatch_post, Effect, Message, ToolkitWindow};

verus! {

/// A script value carried by a message to a script-driven window.
#[derive(Debug)]
pub struct ScriptMessage(pub mlua::Value);

impl ScriptMessage {
    pub fn wrap(value: mlua::Value) -> (r: ScriptMessage)
        ensures
            r.0 == value,
    {
        ScriptMessage(value)
    }

    pub fn unwrap(self) -> (r: mlua::Value)
        ensures
            r == self.0,
    {
        self.0
    }
}

/// A window whose update and view are script functions.
#[derive(Debug)]
pub struct ToolkitWindowLua {
    pub update: mlua::Function,
    pub view: mlua::Function,
}

/// The reply of a script-driven window to the outcome of its update
/// function: a finished script closes the window, and a script error closes
/// it too and is handed on, so that a faulty script cannot wedge the stack.
pub open spec fn spec_scripted_reply(outcome: Result<bool, mlua::Error>) -> Message {
    match outcome {
        Ok(true) => Message::CloseWindow,
        Ok(false) => Message::Nothing,
        Err(e) => Message::ScriptFault(e),
    }
}

pub fn scripted_reply(outcome: Result<bool, mlua::Error>) -> (r: Message)
    ensures
        r == spec_scripted_reply(outcome),
{
    match outcome {
        Ok(true) => Message::CloseWindow,
        Ok(false) => Message::Nothing,
        Err(e) => Message::ScriptFault(e),
    }
}

impl ToolkitWindowLua {
    pub fn new(update: mlua::Function, view: mlua::Function) -> (r: Result<
        ToolkitWindowLua,
        mlua::Error,
    >)
        ensures
            r == Ok::<ToolkitWindowLua, mlua::Error>(ToolkitWindowLua { update, view }),
    {
        Ok(ToolkitWindowLua { update, view })
    }

    /// The value that `message` hands to the update function: the value of
    /// a script message, unchanged; any other message is ignored.
    pub fn update(&mut self, message: Message) -> (r: Option<mlua::Value>)
        ensures
            *final(self) == *old(self),
            r == message.spec_script_value(),
    {
        message.script_value()
    }
}

/// Whether a frame resumes the waiting coroutine: exactly when one waits and
/// the window count dropped from `before` to `after`, that is, a window that
/// the script opened was closed.
pub fn should_resume(before: usize, after: usize, waiting: bool) -> (r: bool)
    ensures
        r == (waiting && after < before),
{
    waiting && after < before
}

/// Settles the continuation after the coroutine was resumed: `resumed` is
/// what the resumption returned and `resumable` whether the coroutine can
/// be resumed again. The slot is kept while it can, and cleared otherwise.
/// The result tells that the coroutine ran, or carries its error.
pub fn after_resume(
    resumed: Result<(), mlua::Error>,
    resumable: bool,
    continuation: &mut Option<mlua::Thread>,
) -> (r: Result<bool, mlua::Error>)
    ensures
        resumable ==> *final(continuation) == *old(continuation),
        !resumable ==> final(continuation).is_none(),
        r == match resumed {
            Ok(()) => Ok::<bool, mlua::Error>(true),
            Err(e) => Err(e),
        },
{
    if !resumable {
        *continuation = None;
    }
    match resumed {
        Ok(()) => Ok(true),
        Err(e) => Err(e),
    }
}

/// Opening a script-driven window adds one window on top; closing it
/// afterwards gives back the stack from before, one window shorter than
/// while it was open, which is the drop that resumes the waiting script.
pub proof fn lemma_suspension_round_trip(
    ws: Seq<ToolkitWindow>,
    l: ToolkitWindowLua,
    mid: Seq<ToolkitWindow>,
    e1: Effect,
    end: Seq<ToolkitWindow>,
    e2: Effect,
)
    requires
        dispatch_post(ws, Message::OpenLua(l), true, mid, e1),
        dispatch_post(mid, Message::CloseWindow, true, end, e2),
    ensures
        mid.len() == ws.len() + 1,
        mid.last() == ToolkitWindow::Lua(l),
        end == ws,
        end.len() < mid.len(),
{
    assert(end =~= ws);
}

} // verus!
