use naev_toolkit::menu_main::pilot_new;
use naev_toolkit::toolkit::{
    dialogue_noop_input, dialogue_noop_ok, DlgInput, DlgOK, Effect, InputAction, Message,
    MessageDialogue, OkAction, ToolkitProgram,
};

#[test]
fn noop_replies_close_the_dialogue() {
    assert!(matches!(dialogue_noop_ok(), Message::CloseWindow));
    assert!(matches!(dialogue_noop_input(true, String::from("x")), Message::CloseWindow));
}

#[test]
fn pilot_new_accepted_greets() {
    match pilot_new(true, String::from("Rex")) {
        Message::OpenDialogueOK(s, a) => {
            assert_eq!(s, "Your name is Rex!");
            assert_eq!(a, OkAction::CloseWindows(2));
        }
        _ => panic!("expected an OK dialogue"),
    }
}

#[test]
fn pilot_new_cancelled_closes() {
    assert!(matches!(pilot_new(false, String::from("Rex")), Message::CloseWindow));
}

#[test]
fn ok_dialogue_replies_only_to_accept() {
    let mut d = DlgOK::new(String::from("hi"), OkAction::CloseWindows(3));
    assert!(matches!(d.update(Message::Dialogue(MessageDialogue::Cancel)), Message::Nothing));
    assert!(matches!(d.update(Message::CloseWindow), Message::Nothing));
    assert!(matches!(
        d.update(Message::Dialogue(MessageDialogue::Accept)),
        Message::CloseWindows(3)
    ));
}

#[test]
fn input_dialogue_cancel_hands_over_text() {
    let mut d = DlgInput::new(String::from("Name?"), InputAction::PilotNew);
    d.update(Message::Dialogue(MessageDialogue::ContentChanged(String::from("Rex"))));
    assert_eq!(d.input, "Rex");
    assert!(matches!(
        d.update(Message::Dialogue(MessageDialogue::Cancel)),
        Message::CloseWindow
    ));
}

#[test]
fn input_dialogue_sequence() {
    let mut d = DlgInput::new(String::from("Name?"), InputAction::PilotNew);
    let r = d.update(Message::Dialogue(MessageDialogue::ContentChanged(String::from("Rex"))));
    assert!(matches!(r, Message::Nothing));
    let reply = d.update(Message::Dialogue(MessageDialogue::Accept));
    let (text, action) = match reply {
        Message::OpenDialogueOK(s, a) => (s, a),
        _ => panic!("expected an OK dialogue"),
    };
    assert_eq!(text, "Your name is Rex!");
    assert_eq!(action, OkAction::CloseWindows(2));
    let mut ok = DlgOK::new(text, action);
    let close = ok.update(Message::Dialogue(MessageDialogue::Accept));
    assert!(matches!(close, Message::CloseWindows(2)));

    let mut p = ToolkitProgram::new();
    p.window_update(Message::OpenMenuMain);
    p.window_update(Message::OpenMenuMain);
    assert_eq!(p.window_count(), 2);
    p.window_update(close);
    assert_eq!(p.window_count(), 0);
    assert!(!p.is_open());
}

#[test]
fn input_dialogue_sequence_on_the_stack() {
    let mut p = ToolkitProgram::new();
    let e = p.window_update(Message::OpenDialogueInput(String::from("Name?"), InputAction::PilotNew));
    assert!(matches!(e, Effect::FocusTopInput));
    p.window_update(Message::Dialogue(MessageDialogue::ContentChanged(String::from("Rex"))));
    p.window_update(Message::Dialogue(MessageDialogue::Accept));
    assert_eq!(p.window_count(), 2);
    p.window_update(Message::Dialogue(MessageDialogue::Accept));
    assert_eq!(p.window_count(), 0);
    assert!(!p.is_open());
}
