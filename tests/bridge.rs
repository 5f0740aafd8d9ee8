use naev_toolkit::bridge::{
    element_of_view, value_to_element, Alignment, Border, BridgeError, Button, Color, Column, Container, Element,
    Handle, Length, Padding, Palette, ScriptValue, Setting, Style,
};
use naev_toolkit::toolkit_lua::ScriptMessage;

fn text_of(e: &Element) -> &str {
    match e {
        Element::Text(s) => s.as_str(),
        _ => panic!("expected text"),
    }
}

#[test]
fn string_becomes_text() {
    let e = value_to_element(ScriptValue::Str(String::from("hello"))).unwrap();
    assert_eq!(text_of(&e), "hello");
}

#[test]
fn handles_become_widgets() {
    let b = Button::new(ScriptValue::Str(String::from("OK"))).unwrap();
    assert!(matches!(value_to_element(ScriptValue::Handle(Handle::Button(b))), Ok(Element::Button(_))));
    let c = Container::new(ScriptValue::Str(String::from("x"))).unwrap();
    assert!(matches!(
        value_to_element(ScriptValue::Handle(Handle::Container(c))),
        Ok(Element::Container(_))
    ));
    let col = Column::from_table(ScriptValue::Nil).unwrap();
    assert!(matches!(value_to_element(ScriptValue::Handle(Handle::Column(col))), Ok(Element::Column(_))));
}

#[test]
fn unsupported_values_are_type_mismatches() {
    for v in [
        ScriptValue::Nil,
        ScriptValue::Boolean(true),
        ScriptValue::Integer(3),
        ScriptValue::Other,
        ScriptValue::Table(vec![]),
        ScriptValue::Handle(Handle::Length(Length::Fill)),
        ScriptValue::Handle(Handle::Color(Color::new(1, 2, 3, 4))),
    ] {
        assert!(matches!(value_to_element(v), Err(BridgeError::TypeMismatch)));
    }
}

#[test]
fn column_keeps_script_order() {
    let b = Button::new(ScriptValue::Str(String::from("b"))).unwrap();
    let items = vec![
        ScriptValue::Str(String::from("a")),
        ScriptValue::Handle(Handle::Button(b)),
        ScriptValue::Str(String::from("c")),
    ];
    let col = Column::from_table(ScriptValue::Table(items)).unwrap();
    assert_eq!(col.children.len(), 3);
    assert_eq!(text_of(&col.children[0]), "a");
    match &col.children[1] {
        Element::Button(b) => assert_eq!(text_of(&b.content), "b"),
        _ => panic!("expected a button"),
    }
    assert_eq!(text_of(&col.children[2]), "c");
    assert_eq!(col.spacing, 0);
    assert_eq!(col.width, Length::Shrink);
}

#[test]
fn column_from_nil_or_empty_is_empty() {
    assert_eq!(Column::from_table(ScriptValue::Nil).unwrap().children.len(), 0);
    assert_eq!(Column::from_table(ScriptValue::Table(vec![])).unwrap().children.len(), 0);
}

#[test]
fn column_with_bad_item_is_type_mismatch() {
    let items = vec![ScriptValue::Str(String::from("a")), ScriptValue::Integer(7)];
    assert!(matches!(
        Column::from_table(ScriptValue::Table(items)),
        Err(BridgeError::TypeMismatch)
    ));
}

#[test]
fn column_from_non_list_is_bad_argument() {
    assert!(matches!(Column::from_table(ScriptValue::Integer(1)), Err(BridgeError::BadArgument)));
    assert!(matches!(
        Column::from_table(ScriptValue::Str(String::from("a"))),
        Err(BridgeError::BadArgument)
    ));
}

#[test]
fn column_builders() {
    let col = Column::from_table(ScriptValue::Nil)
        .unwrap()
        .spacing(10)
        .padding(Padding::uniform(20))
        .width(Length::Fill)
        .height(Length::FillPortion(2))
        .max_width(300)
        .align_x(Alignment::Center)
        .clip(true)
        .push(ScriptValue::Str(String::from("last")))
        .unwrap();
    assert_eq!(col.spacing, 10);
    assert_eq!(col.padding, Padding { top: 20, right: 20, bottom: 20, left: 20 });
    assert_eq!(col.width, Length::Fill);
    assert_eq!(col.height, Length::FillPortion(2));
    assert_eq!(col.max_width, Some(300));
    assert_eq!(col.align_x, Alignment::Center);
    assert!(col.clip);
    assert_eq!(col.children.len(), 1);
    assert_eq!(text_of(&col.children[0]), "last");
}

#[test]
fn column_push_rejects_non_element() {
    let col = Column::from_table(ScriptValue::Nil).unwrap();
    assert!(matches!(col.push(ScriptValue::Boolean(false)), Err(BridgeError::TypeMismatch)));
}

#[test]
fn container_builders() {
    let black = Color::new(0, 0, 0, 255);
    let st = Style { background: Some(black), text_color: None, border: Border::new(black, 1, 10) };
    let c = Container::new(ScriptValue::Str(String::from("x")))
        .unwrap()
        .padding(Padding::uniform(4))
        .max_width(100)
        .max_height(50)
        .center(Length::Fill)
        .clip(true)
        .style(st);
    assert_eq!(c.width, Length::Fill);
    assert_eq!(c.height, Length::Fill);
    assert_eq!(c.align_x, Alignment::Center);
    assert_eq!(c.align_y, Alignment::Center);
    assert_eq!(c.max_width, Some(100));
    assert_eq!(c.max_height, Some(50));
    assert_eq!(c.style, Some(st));
    assert!(c.clip);
    let c = c.align_x(Alignment::End).align_y(Alignment::Start).width(Length::Fixed(8)).height(Length::Shrink);
    assert_eq!(c.align_x, Alignment::End);
    assert_eq!(c.align_y, Alignment::Start);
    assert_eq!(c.width, Length::Fixed(8));
    assert_eq!(c.height, Length::Shrink);
    let c = c.center_x(Length::Shrink).center_y(Length::Fixed(3));
    assert_eq!((c.width, c.align_x), (Length::Shrink, Alignment::Center));
    assert_eq!((c.height, c.align_y), (Length::Fixed(3), Alignment::Center));
}

#[test]
fn container_of_non_element_is_type_mismatch() {
    assert!(matches!(Container::new(ScriptValue::Nil), Err(BridgeError::TypeMismatch)));
}

#[test]
fn button_defaults_and_builders() {
    let b = Button::new(ScriptValue::Str(String::from("Go"))).unwrap();
    assert_eq!(b.padding, Padding { top: 5, right: 10, bottom: 5, left: 10 });
    assert!(b.on_press.is_none());
    let b = b
        .on_press(ScriptMessage::wrap(mlua::Value::Integer(9)))
        .width(Length::Fixed(80))
        .height(Length::Fill)
        .padding(Padding::uniform(0))
        .clip(true);
    assert_eq!(b.on_press.as_ref().unwrap().0, mlua::Value::Integer(9));
    assert_eq!(b.width, Length::Fixed(80));
    assert_eq!(b.height, Length::Fill);
    assert_eq!(b.padding, Padding::uniform(0));
    assert!(b.clip);
}

#[test]
fn button_of_handle_kind_mismatch() {
    assert!(matches!(
        Button::new(ScriptValue::Handle(Handle::Padding(Padding::uniform(1)))),
        Err(BridgeError::TypeMismatch)
    ));
}

#[test]
fn styling_values() {
    let c = Color::new(58, 170, 153, 255);
    assert_eq!((c.r, c.g, c.b, c.a), (58, 170, 153, 255));
    let b = Border::new(c, 1, 10);
    assert_eq!((b.color, b.width, b.radius), (c, 1, 10));
    let w = Color::new(255, 255, 255, 255);
    let p = Palette::new(c, w, c, w, c);
    assert_eq!(p.text, w);
    assert_eq!(p.danger, c);
}

#[test]
fn settings_apply_by_builder_kind() {
    let c = Container::new(ScriptValue::Str(String::from("x"))).unwrap();
    match Handle::Container(c).apply(Setting::Center(Length::Fill)).unwrap() {
        Handle::Container(c) => {
            assert_eq!((c.width, c.height), (Length::Fill, Length::Fill));
            assert_eq!((c.align_x, c.align_y), (Alignment::Center, Alignment::Center));
        }
        _ => panic!("expected a container"),
    }
    let col = Column::from_table(ScriptValue::Nil).unwrap();
    match Handle::Column(col).apply(Setting::Spacing(7)).unwrap() {
        Handle::Column(c) => assert_eq!(c.spacing, 7),
        _ => panic!("expected a column"),
    }
    let b = Button::new(ScriptValue::Str(String::from("b"))).unwrap();
    match Handle::Button(b).apply(Setting::OnPress(ScriptMessage::wrap(mlua::Value::Integer(1)))).unwrap() {
        Handle::Button(b) => assert_eq!(b.on_press.unwrap().0, mlua::Value::Integer(1)),
        _ => panic!("expected a button"),
    }
}

#[test]
fn settings_that_do_not_fit_are_type_mismatches() {
    let col = Column::from_table(ScriptValue::Nil).unwrap();
    assert!(matches!(
        Handle::Column(col).apply(Setting::Style(Style {
            background: None,
            text_color: None,
            border: Border::new(Color::new(0, 0, 0, 0), 0, 0),
        })),
        Err(BridgeError::TypeMismatch)
    ));
    let b = Button::new(ScriptValue::Str(String::from("b"))).unwrap();
    assert!(matches!(Handle::Button(b).apply(Setting::Spacing(1)), Err(BridgeError::TypeMismatch)));
    let c = Container::new(ScriptValue::Str(String::from("x"))).unwrap();
    assert!(matches!(
        Handle::Container(c).apply(Setting::OnPress(ScriptMessage::wrap(mlua::Value::Nil))),
        Err(BridgeError::TypeMismatch)
    ));
    assert!(matches!(
        Handle::Length(Length::Fill).apply(Setting::Clip(true)),
        Err(BridgeError::TypeMismatch)
    ));
}

#[test]
fn push_only_on_columns() {
    let col = Column::from_table(ScriptValue::Nil).unwrap();
    match Handle::Column(col).push(ScriptValue::Str(String::from("a"))).unwrap() {
        Handle::Column(c) => assert_eq!(text_of(&c.children[0]), "a"),
        _ => panic!("expected a column"),
    }
    let c = Container::new(ScriptValue::Str(String::from("x"))).unwrap();
    assert!(matches!(
        Handle::Container(c).push(ScriptValue::Str(String::from("a"))),
        Err(BridgeError::TypeMismatch)
    ));
}

#[test]
fn styling_values_copy_and_builders_do_not() {
    assert!(matches!(Handle::Length(Length::Fixed(4)).copy_value(), Some(Handle::Length(Length::Fixed(4)))));
    assert!(matches!(Handle::Alignment(Alignment::End).copy_value(), Some(Handle::Alignment(Alignment::End))));
    let b = Button::new(ScriptValue::Str(String::from("b"))).unwrap();
    assert!(Handle::Button(b).copy_value().is_none());
}

#[test]
fn view_of_a_list_is_a_column_in_order() {
    let items = vec![
        ScriptValue::Str(String::from("a")),
        ScriptValue::Str(String::from("b")),
        ScriptValue::Str(String::from("c")),
    ];
    match element_of_view(ScriptValue::Table(items)).unwrap() {
        Element::Column(c) => {
            let texts: Vec<&str> = c.children.iter().map(text_of).collect();
            assert_eq!(texts, vec!["a", "b", "c"]);
        }
        _ => panic!("expected a column"),
    }
}

#[test]
fn view_of_nil_or_empty_is_an_empty_column() {
    assert!(matches!(element_of_view(ScriptValue::Nil), Ok(Element::Column(c)) if c.children.is_empty()));
    assert!(matches!(
        element_of_view(ScriptValue::Table(vec![])),
        Ok(Element::Column(c)) if c.children.is_empty()
    ));
}

#[test]
fn view_of_other_values() {
    assert_eq!(text_of(&element_of_view(ScriptValue::Str(String::from("t"))).unwrap()), "t");
    assert!(matches!(element_of_view(ScriptValue::Boolean(true)), Err(BridgeError::TypeMismatch)));
    assert!(matches!(element_of_view(ScriptValue::Other), Err(BridgeError::TypeMismatch)));
    assert!(matches!(
        element_of_view(ScriptValue::Table(vec![ScriptValue::Integer(1)])),
        Err(BridgeError::TypeMismatch)
    ));
}
