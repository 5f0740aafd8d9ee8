//! The window stack: messages, the dialogue windows, and the routing of a
//! message to the topmost window.

use vstd::prelude::*;

use crate::menu_main;
use crate::menu_main::MenuMain;
use crate::toolkit_lua::{scripted_reply, spec_scripted_reply, ScriptMessage, ToolkitWindowLua};

verus! {

#[verifier::external_type_specification]
#[verifier::external_body]
pub struct ExInputId(iced_widget::text_input::Id);

/// Relies on `iced_widget::text_input::Id::unique`: a fresh identifier for a
/// text input, later used to focus it.
#[verifier::external_body]
fn unique_input_id() -> (r: iced_widget::text_input::Id) {
    iced_widget::text_input::Id::unique()
}

/// Messages owned by the dialogue windows.
#[derive(Debug, Clone)]
pub enum MessageDialogue {
    Accept,
    Cancel,
    ContentChanged(String),
}

/// The reply of an OK dialogue when it is accepted.
#[derive(Debug, Clone, Copy, PartialEq, Eq)]
pub enum OkAction {
    /// Close the dialogue itself.
    Noop,
    /// Close this many windows.
    CloseWindows(u32),
}

/// The reply of an input dialogue when it is accepted or cancelled.
#[derive(Debug, Clone, Copy, PartialEq, Eq)]
pub enum InputAction {
    /// Close the dialogue itself, whatever was typed.
    Noop,
    /// Greet the newly named pilot (see `menu_main::pilot_new`).
    PilotNew,
}

/// Every message that the window stack routes.
#[derive(Debug)]
pub enum Message {
    /// Nothing to do.
    Nothing,
    /// Close the topmost window.
    CloseWindow,
    /// Close up to this many windows, stopping once the stack is empty.
    CloseWindows(u32),
    OpenMenuMain,
    /// Open a script-driven window.
    OpenLua(ToolkitWindowLua),
    /// Open an OK dialogue with a text and what accepting it replies.
    OpenDialogueOK(String, OkAction),
    /// Open an input dialogue with a prompt and what accepting or
    /// cancelling it replies.
    OpenDialogueInput(String, InputAction),
    /// Close the topmost window and ask the host to quit.
    Quit,
    /// Close the topmost window, whose script failed, and report the error.
    ScriptFault(mlua::Error),
    /// For the topmost window, when it is script-driven.
    Lua(ScriptMessage),
    /// For the topmost window, when it is the main menu.
    MenuMain(menu_main::Message),
    /// For the topmost window, when it is a dialogue.
    Dialogue(MessageDialogue),
}

/// What the host has to do after a message was routed.
#[derive(Debug)]
pub enum Effect {
    Nothing,
    /// Give keyboard focus to the text input of the topmost window.
    FocusTopInput,
    /// Leave the program.
    Quit,
    /// Report a script error; its window was closed.
    ScriptFault(mlua::Error),
    /// Call the update function of the topmost window, which is
    /// script-driven, with this value, and hand the outcome to
    /// `ToolkitProgram::script_replied`.
    CallScript(mlua::Value),
}

/// What a window makes of a message: a reply for the stack, or a value for
/// its script's update function.
#[derive(Debug)]
pub enum WindowReply {
    Reply(Message),
    Script(mlua::Value),
}

impl Message {
    /// Lifts a script value into a message for script-driven windows.
    pub fn wrap(value: mlua::Value) -> (r: Message)
        ensures
            r == Message::Lua(ScriptMessage(value)),
    {
        Message::Lua(ScriptMessage(value))
    }

    /// The script value that the message carries, if it is for a
    /// script-driven window.
    pub open spec fn spec_script_value(self) -> Option<mlua::Value> {
        match self {
            Message::Lua(m) => Some(m.0),
            _ => None,
        }
    }

    pub fn script_value(self) -> (r: Option<mlua::Value>)
        ensures
            r == self.spec_script_value(),
    {
        match self {
            Message::Lua(m) => Some(m.unwrap()),
            _ => None,
        }
    }
}

/// Unwrapping a wrapped script value gives back that very value.
pub proof fn lemma_wrap_round_trip(value: mlua::Value)
    ensures
        Message::Lua(ScriptMessage(value)).spec_script_value() == Some(value),
{
}

pub open spec fn spec_dialogue_noop_ok() -> Message {
    Message::CloseWindow
}

/// The reply of an OK dialogue that only closes itself.
pub fn dialogue_noop_ok() -> (r: Message)
    ensures
        r == spec_dialogue_noop_ok(),
{
    Message::CloseWindow
}

/// The reply of an input dialogue that only closes itself.
pub fn dialogue_noop_input(_b: bool, _s: String) -> (r: Message)
    ensures
        r == spec_dialogue_noop_ok(),
{
    Message::CloseWindow
}

impl OkAction {
    pub open spec fn spec_reply(self) -> Message {
        match self {
            OkAction::Noop => spec_dialogue_noop_ok(),
            OkAction::CloseWindows(n) => Message::CloseWindows(n),
        }
    }

    pub fn reply(&self) -> (r: Message)
        ensures
            r == self.spec_reply(),
    {
        match self {
            OkAction::Noop => dialogue_noop_ok(),
            OkAction::CloseWindows(n) => Message::CloseWindows(*n),
        }
    }
}

impl InputAction {
    /// Whether `r` is the reply of this action to `accepted` and the text `text`.
    pub open spec fn is_reply(self, accepted: bool, text: Seq<char>, r: Message) -> bool {
        match self {
            InputAction::Noop => r == spec_dialogue_noop_ok(),
            InputAction::PilotNew => menu_main::is_pilot_new_reply(accepted, text, r),
        }
    }

    pub fn reply(&self, accepted: bool, text: String) -> (r: Message)
        ensures
            self.is_reply(accepted, text@, r),
    {
        match self {
            InputAction::Noop => dialogue_noop_input(accepted, text),
            InputAction::PilotNew => menu_main::pilot_new(accepted, text),
        }
    }
}

/// A dialogue with a text and an OK button.
#[derive(Debug)]
pub struct DlgOK {
    pub msg: String,
    pub accept: OkAction,
}

impl DlgOK {
    pub fn new(msg: String, accept: OkAction) -> (r: DlgOK)
        ensures
            r == (DlgOK { msg, accept }),
    {
        DlgOK { msg, accept }
    }

    /// Whether `r` is the reply of an OK dialogue with action `accept` to `message`.
    pub open spec fn is_reply(accept: OkAction, message: Message, r: Message) -> bool {
        if message matches Message::Dialogue(MessageDialogue::Accept) {
            r == accept.spec_reply()
        } else {
            r is Nothing
        }
    }

    pub fn update(&mut self, message: Message) -> (r: Message)
        ensures
            *final(self) == *old(self),
            DlgOK::is_reply(old(self).accept, message, r),
    {
        match message {
            Message::Dialogue(MessageDialogue::Accept) => self.accept.reply(),
            _ => Message::Nothing,
        }
    }
}

/// A dialogue with a prompt, a text input, and OK and Cancel buttons.
#[derive(Debug)]
pub struct DlgInput {
    pub msg: String,
    pub input: String,
    pub accept: InputAction,
    pub id: iced_widget::text_input::Id,
}

impl DlgInput {
    pub fn new(msg: String, accept: InputAction) -> (r: DlgInput)
        ensures
            r.msg == msg,
            r.input@ == Seq::<char>::empty(),
            r.accept == accept,
    {
        DlgInput { msg, input: String::new(), accept, id: unique_input_id() }
    }

    /// Whether `(w, r)` are the state and the reply of input dialogue `d`
    /// after `message`.
    pub open spec fn is_step(d: DlgInput, message: Message, w: DlgInput, r: Message) -> bool {
        match message {
            Message::Dialogue(MessageDialogue::ContentChanged(s)) => w == (DlgInput { input: s, ..d })
                && r is Nothing,
            Message::Dialogue(MessageDialogue::Accept) => w == d && d.accept.is_reply(
                true,
                d.input@,
                r,
            ),
            Message::Dialogue(MessageDialogue::Cancel) => w == d && d.accept.is_reply(
                false,
                d.input@,
                r,
            ),
            _ => w == d && r is Nothing,
        }
    }

    pub fn update(&mut self, message: Message) -> (r: Message)
        ensures
            DlgInput::is_step(*old(self), message, *final(self), r),
    {
        match message {
            Message::Dialogue(MessageDialogue::Accept) => self.accept.reply(true, self.input.clone()),
            Message::Dialogue(MessageDialogue::Cancel) => self.accept.reply(false, self.input.clone()),
            Message::Dialogue(MessageDialogue::ContentChanged(content)) => {
                self.input = content;
                Message::Nothing
            },
            _ => Message::Nothing,
        }
    }
}

/// A window of the stack.
#[derive(Debug)]
pub enum ToolkitWindow {
    Lua(ToolkitWindowLua),
    MenuMain(MenuMain),
    DlgOK(DlgOK),
    DlgInput(DlgInput),
}

impl ToolkitWindow {
    /// Whether `(w2, r)` can be the state and the reply of window `w` after
    /// `message`. A script-driven window keeps its state and hands the value
    /// of a script message to its script; any other message it ignores.
    pub open spec fn is_step(w: ToolkitWindow, message: Message, w2: ToolkitWindow, r: WindowReply) -> bool {
        match w {
            ToolkitWindow::Lua(_) => w2 == w && r == match message.spec_script_value() {
                Some(v) => WindowReply::Script(v),
                None => WindowReply::Reply(Message::Nothing),
            },
            ToolkitWindow::MenuMain(_) => w2 == w && (r matches WindowReply::Reply(m)
                && MenuMain::is_reply(message, m)),
            ToolkitWindow::DlgOK(d) => w2 == w && (r matches WindowReply::Reply(m)
                && DlgOK::is_reply(d.accept, message, m)),
            ToolkitWindow::DlgInput(d) => w2 matches ToolkitWindow::DlgInput(d2) && (r matches WindowReply::Reply(m)
                && DlgInput::is_step(d, message, d2, m)),
        }
    }

    pub fn update(&mut self, message: Message) -> (r: WindowReply)
        ensures
            ToolkitWindow::is_step(*old(self), message, *final(self), r),
    {
        match self {
            ToolkitWindow::Lua(state) => match state.update(message) {
                Some(v) => WindowReply::Script(v),
                None => WindowReply::Reply(Message::Nothing),
            },
            ToolkitWindow::MenuMain(state) => WindowReply::Reply(state.update(message)),
            ToolkitWindow::DlgOK(state) => WindowReply::Reply(state.update(message)),
            ToolkitWindow::DlgInput(state) => WindowReply::Reply(state.update(message)),
        }
    }
}

/// Whether the message manages the stack itself rather than being routed to
/// a window.
pub open spec fn is_directive(m: Message) -> bool {
    ||| m is CloseWindow
    ||| m is CloseWindows
    ||| m is OpenMenuMain
    ||| m is OpenLua
    ||| m is OpenDialogueOK
    ||| m is OpenDialogueInput
    ||| m is Quit
    ||| m is ScriptFault
}

/// The stack after popping up to `n` windows.
pub open spec fn pop_n(ws: Seq<ToolkitWindow>, n: int) -> Seq<ToolkitWindow> {
    if n >= ws.len() {
        Seq::empty()
    } else {
        ws.subrange(0, ws.len() - n)
    }
}

/// Whether `(new, e)` is the stack and effect after the directive `m` was
/// applied to `old`.
pub open spec fn directive_post(old: Seq<ToolkitWindow>, m: Message, new: Seq<ToolkitWindow>, e: Effect) -> bool {
    match m {
        Message::CloseWindow => new == pop_n(old, 1) && e == Effect::Nothing,
        Message::CloseWindows(n) => new == pop_n(old, n as int) && e == Effect::Nothing,
        Message::Quit => new == pop_n(old, 1) && e == Effect::Quit,
        Message::ScriptFault(err) => new == pop_n(old, 1) && e == Effect::ScriptFault(err),
        Message::OpenMenuMain => new == old.push(ToolkitWindow::MenuMain(MenuMain {  }))
            && e == Effect::Nothing,
        Message::OpenLua(l) => new == old.push(ToolkitWindow::Lua(l)) && e == Effect::Nothing,
        Message::OpenDialogueOK(s, a) => new == old.push(
            ToolkitWindow::DlgOK(DlgOK { msg: s, accept: a }),
        ) && e == Effect::Nothing,
        Message::OpenDialogueInput(s, a) => {
            &&& new.len() == old.len() + 1
            &&& new.take(old.len() as int) == old
            &&& new.last() matches ToolkitWindow::DlgInput(d)
            &&& d.msg == s
            &&& d.input@ == Seq::<char>::empty()
            &&& d.accept == a
            &&& e == Effect::FocusTopInput
        },
        _ => new == old && e == Effect::Nothing,
    }
}

/// Whether `(new, e)` is the stack and effect after a window's reply `reply`
/// was handled without routing it any further.
pub open spec fn relay_post(ws: Seq<ToolkitWindow>, reply: Message, new: Seq<ToolkitWindow>, e: Effect) -> bool {
    if is_directive(reply) {
        directive_post(ws, reply, new, e)
    } else {
        new == ws && e == Effect::Nothing
    }
}

/// Whether `(new, e)` is the stack and effect after a window's answer
/// `reply`: a reply is handled without routing it further, and a value for
/// the script is passed on to the host.
pub open spec fn reply_post(ws: Seq<ToolkitWindow>, reply: WindowReply, new: Seq<ToolkitWindow>, e: Effect) -> bool {
    match reply {
        WindowReply::Reply(m) => relay_post(ws, m, new, e),
        WindowReply::Script(v) => new == ws && e == Effect::CallScript(v),
    }
}

/// Whether `(new, e)` can be the stack and effect after `message` was
/// routed on `old`, with `recurse` telling whether the topmost window may
/// see it.
pub open spec fn dispatch_post(
    old: Seq<ToolkitWindow>,
    message: Message,
    recurse: bool,
    new: Seq<ToolkitWindow>,
    e: Effect,
) -> bool {
    if is_directive(message) {
        directive_post(old, message, new, e)
    } else if !recurse || old.len() == 0 {
        new == old && e == Effect::Nothing
    } else {
        exists|w2: ToolkitWindow, reply: WindowReply|
            ToolkitWindow::is_step(old.last(), message, w2, reply) && #[trigger] reply_post(
                old.update(old.len() - 1, w2),
                reply,
                new,
                e,
            )
    }
}

/// Routes one message: a directive opens or closes windows; any other
/// message goes to the topmost window when `recurse` holds, and the window's
/// reply is routed once more without recursion.
fn window_message(windows: &mut Vec<ToolkitWindow>, message: Message, recurse: bool) -> (r: Effect)
    ensures
        dispatch_post(old(windows)@, message, recurse, final(windows)@, r),
    decreases (if recurse { 1int } else { 0int }),
{
    match message {
        Message::CloseWindow => {
            windows.pop();
            assert(windows@ =~= pop_n(old(windows)@, 1));
            Effect::Nothing
        },
        Message::Quit => {
            windows.pop();
            assert(windows@ =~= pop_n(old(windows)@, 1));
            Effect::Quit
        },
        Message::ScriptFault(err) => {
            windows.pop();
            assert(windows@ =~= pop_n(old(windows)@, 1));
            Effect::ScriptFault(err)
        },
        Message::CloseWindows(n) => {
            let mut i: u32 = 0;
            while i < n
                invariant
                    i <= n,
                    windows@ == pop_n(old(windows)@, i as int),
                ensures
                    windows@ == pop_n(old(windows)@, n as int),
                decreases n - i,
            {
                if windows.pop().is_none() {
                    assert(pop_n(old(windows)@, n as int) =~= windows@);
                    break;
                }
                i = i + 1;
                assert(windows@ =~= pop_n(old(windows)@, i as int));
            }
            Effect::Nothing
        },
        Message::OpenMenuMain => {
            windows.push(ToolkitWindow::MenuMain(MenuMain::new()));
            Effect::Nothing
        },
        Message::OpenLua(tk) => {
            windows.push(ToolkitWindow::Lua(tk));
            Effect::Nothing
        },
        Message::OpenDialogueOK(msg, accept) => {
            windows.push(ToolkitWindow::DlgOK(DlgOK::new(msg, accept)));
            Effect::Nothing
        },
        Message::OpenDialogueInput(msg, accept) => {
            windows.push(ToolkitWindow::DlgInput(DlgInput::new(msg, accept)));
            assert(windows@.take(old(windows)@.len() as int) =~= old(windows)@);
            Effect::FocusTopInput
        },
        _ => {
            if recurse && windows.len() > 0 {
                let mut top = windows.pop().unwrap();
                let ghost top0 = top;
                let ghost msg0 = message;
                let reply = top.update(message);
                windows.push(top);
                let ghost mid = windows@;
                assert(mid =~= old(windows)@.update(old(windows)@.len() - 1, top));
                let ghost reply0 = reply;
                let e = match reply {
                    WindowReply::Script(v) => Effect::CallScript(v),
                    WindowReply::Reply(Message::Nothing) => Effect::Nothing,
                    WindowReply::Reply(msg) => window_message(windows, msg, false),
                };
                assert(ToolkitWindow::is_step(top0, msg0, top, reply0));
                assert(reply_post(mid, reply0, windows@, e));
                e
            } else {
                Effect::Nothing
            }
        },
    }
}

/// Closing `n` windows of a stack of `k` leaves its bottom `max(k - n, 0)`
/// windows; on an empty stack it changes nothing, however often it comes.
pub proof fn lemma_close_windows(old: Seq<ToolkitWindow>, n: u32, new: Seq<ToolkitWindow>, e: Effect)
    requires
        dispatch_post(old, Message::CloseWindows(n), true, new, e),
    ensures
        new.len() == (if old.len() >= n { old.len() - n } else { 0 }),
        new == old.take(new.len() as int),
        old.len() == 0 ==> new == old,
        e == Effect::Nothing,
{
}

/// Routing goes at most one reply deep. Without recursion a message that is
/// no directive changes nothing; with it, when no answer that the topmost
/// window can give is a directive, only that window's own state may change,
/// and at most a script call is left to the host.
pub proof fn lemma_relay_depth(
    old: Seq<ToolkitWindow>,
    m: Message,
    recurse: bool,
    new: Seq<ToolkitWindow>,
    e: Effect,
)
    requires
        !is_directive(m),
        dispatch_post(old, m, recurse, new, e),
        forall|w2: ToolkitWindow, reply: WindowReply|
            #![trigger ToolkitWindow::is_step(old.last(), m, w2, reply)]
            ToolkitWindow::is_step(old.last(), m, w2, reply) ==> !(reply matches WindowReply::Reply(
                x,
            ) && is_directive(x)),
    ensures
        !recurse ==> new == old && e == Effect::Nothing,
        new.len() == old.len(),
        old.len() > 0 ==> new.take(old.len() - 1) == old.take(old.len() - 1),
        e == Effect::Nothing || e is CallScript,
{
    if recurse && old.len() > 0 {
        let (w2, reply) = choose|w2: ToolkitWindow, reply: WindowReply|
            ToolkitWindow::is_step(old.last(), m, w2, reply) && #[trigger] reply_post(
                old.update(old.len() - 1, w2),
                reply,
                new,
                e,
            );
        assert(new.take(old.len() - 1) =~= old.take(old.len() - 1));
    }
}

/// The window stack with its visibility flag.
pub struct ToolkitProgram {
    pub open: bool,
    pub windows: Vec<ToolkitWindow>,
}

impl ToolkitProgram {
    /// The flag is set exactly when some window is on the stack.
    pub open spec fn wf(&self) -> bool {
        self.open == (self.windows@.len() > 0)
    }

    pub fn new() -> (r: ToolkitProgram)
        ensures
            r.wf(),
            r.windows@ == Seq::<ToolkitWindow>::empty(),
            !r.open,
    {
        ToolkitProgram { open: false, windows: Vec::new() }
    }

    /// Opening the main menu on an empty stack shows exactly that menu.
    pub proof fn lemma_open_menu_on_empty(p: ToolkitProgram, e: Effect)
        requires
            p.wf(),
            dispatch_post(Seq::empty(), Message::OpenMenuMain, true, p.windows@, e),
        ensures
            p.open,
            p.windows@ == seq![ToolkitWindow::MenuMain(MenuMain {  })],
    {
        assert(p.windows@ =~= seq![ToolkitWindow::MenuMain(MenuMain {  })]);
    }

    /// Routes `message` to the stack and refreshes the visibility flag.
    pub fn window_update(&mut self, message: Message) -> (r: Effect)
        ensures
            final(self).wf(),
            dispatch_post(old(self).windows@, message, true, final(self).windows@, r),
    {
        let t = window_message(&mut self.windows, message, true);
        self.open = !self.windows.is_empty();
        t
    }

    /// Routes the outcome of a script's update function, called for the
    /// topmost window after `Effect::CallScript`: the window's reply is
    /// handled once, without routing it any further.
    pub fn script_replied(&mut self, outcome: Result<bool, mlua::Error>) -> (r: Effect)
        ensures
            final(self).wf(),
            relay_post(old(self).windows@, spec_scripted_reply(outcome), final(self).windows@, r),
    {
        let t = match scripted_reply(outcome) {
            Message::Nothing => Effect::Nothing,
            m => window_message(&mut self.windows, m, false),
        };
        self.open = !self.windows.is_empty();
        t
    }

    /// Whether any window is shown; input and drawing are only forwarded
    /// then.
    pub fn is_open(&self) -> (r: bool)
        requires
            self.wf(),
        ensures
            r == (self.windows@.len() > 0),
    {
        self.open
    }

    /// The number of windows on the stack.
    pub fn window_count(&self) -> (r: usize)
        ensures
            r == self.windows@.len(),
    {
        self.windows.len()
    }
}

/// Messages that scripts asked for, waiting for the next frame.
pub struct PendingQueue {
    items: Vec<Message>,
}

impl View for PendingQueue {
    type V = Seq<Message>;

    closed spec fn view(&self) -> Seq<Message> {
        self.items@
    }
}

impl PendingQueue {
    pub fn new() -> (r: PendingQueue)
        ensures
            r@ == Seq::<Message>::empty(),
    {
        PendingQueue { items: Vec::new() }
    }

    pub fn push(&mut self, m: Message)
        ensures
            final(self)@ == old(self)@.push(m),
    {
        self.items.push(m);
    }

    pub fn len(&self) -> (r: usize)
        ensures
            r == self@.len(),
    {
        self.items.len()
    }

    /// Takes every waiting message, in the order in which they were pushed,
    /// and leaves the queue empty.
    pub fn drain(&mut self) -> (r: Vec<Message>)
        ensures
            r@ == old(self)@,
            final(self)@ == Seq::<Message>::empty(),
    {
        let mut out: Vec<Message> = Vec::new();
        std::mem::swap(&mut out, &mut self.items);
        out
    }
}

} // verus!
