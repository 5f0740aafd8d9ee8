//! The widget bridge: the handles that scripts build widgets with, and the
//! coercion of script values into nodes of the widget tree.
//!
//! Sizes are whole logical pixels and colour channels are bytes.

use vstd::prelude::*;

use crate::toolkit_lua::ScriptMessage;

verus! {

#[derive(Debug, Clone, Copy, PartialEq, Eq)]
pub enum Length {
    Fill,
    FillPortion(u16),
    Shrink,
    Fixed(u32),
}

#[derive(Debug, Clone, Copy, PartialEq, Eq)]
pub enum Alignment {
    Start,
    Center,
    End,
}

#[derive(Debug, Clone, Copy, PartialEq, Eq)]
pub struct Padding {
    pub top: u32,
    pub right: u32,
    pub bottom: u32,
    pub left: u32,
}

#[derive(Debug, Clone, Copy, PartialEq, Eq)]
pub struct Color {
    pub r: u8,
    pub g: u8,
    pub b: u8,
    pub a: u8,
}

#[derive(Debug, Clone, Copy, PartialEq, Eq)]
pub struct Border {
    pub color: Color,
    pub width: u32,
    pub radius: u32,
}

#[derive(Debug, Clone, Copy, PartialEq, Eq)]
pub struct Style {
    pub background: Option<Color>,
    pub text_color: Option<Color>,
    pub border: Border,
}

#[derive(Debug, Clone, Copy, PartialEq, Eq)]
pub struct Palette {
    pub background: Color,
    pub text: Color,
    pub primary: Color,
    pub success: Color,
    pub danger: Color,
}

/// A node of the widget tree.
#[derive(Debug)]
pub enum Element {
    Text(String),
    Button(Button),
    Container(Container),
    Column(Column),
}

#[derive(Debug)]
pub struct Button {
    pub content: Box<Element>,
    pub on_press: Option<ScriptMessage>,
    pub width: Length,
    pub height: Length,
    pub padding: Padding,
    pub clip: bool,
}

#[derive(Debug)]
pub struct Container {
    pub content: Box<Element>,
    pub padding: Padding,
    pub width: Length,
    pub height: Length,
    pub max_width: Option<u32>,
    pub max_height: Option<u32>,
    pub align_x: Alignment,
    pub align_y: Alignment,
    pub clip: bool,
    pub style: Option<Style>,
}

#[derive(Debug)]
pub struct Column {
    pub children: Vec<Element>,
    pub spacing: u32,
    pub padding: Padding,
    pub width: Length,
    pub height: Length,
    pub max_width: Option<u32>,
    pub align_x: Alignment,
    pub clip: bool,
}

/// A widget-builder value held by a script, tagged by its kind.
#[derive(Debug)]
pub enum Handle {
    Button(Button),
    Container(Container),
    Column(Column),
    Length(Length),
    Padding(Padding),
    Alignment(Alignment),
    Color(Color),
    Border(Border),
    Style(Style),
    Palette(Palette),
}

/// A script value as the bridge reads it. `Table` is the sequence part of a
/// table, in order; `Other` is any kind that the bridge never accepts.
#[derive(Debug)]
pub enum ScriptValue {
    Nil,
    Boolean(bool),
    Integer(i64),
    Str(String),
    Table(Vec<ScriptValue>),
    Handle(Handle),
    Other,
}

#[derive(Debug, Clone, Copy, PartialEq, Eq)]
pub enum BridgeError {
    /// The value is not of a kind that can become the expected thing.
    TypeMismatch,
    /// The argument has the wrong shape, e.g. no list where children are
    /// expected.
    BadArgument,
}

pub open spec fn no_padding() -> Padding {
    Padding { top: 0, right: 0, bottom: 0, left: 0 }
}

/// A button's padding until a script sets one: 5 above and below, 10 at
/// the sides.
pub open spec fn default_button_padding() -> Padding {
    Padding { top: 5, right: 10, bottom: 5, left: 10 }
}

impl Padding {
    /// The same padding on every side.
    pub fn uniform(px: u32) -> (r: Padding)
        ensures
            r == (Padding { top: px, right: px, bottom: px, left: px }),
    {
        Padding { top: px, right: px, bottom: px, left: px }
    }
}

impl Color {
    pub fn new(r: u8, g: u8, b: u8, a: u8) -> (c: Color)
        ensures
            c == (Color { r, g, b, a }),
    {
        Color { r, g, b, a }
    }
}

impl Border {
    pub fn new(color: Color, width: u32, radius: u32) -> (r: Border)
        ensures
            r == (Border { color, width, radius }),
    {
        Border { color, width, radius }
    }
}

impl Palette {
    pub fn new(background: Color, text: Color, primary: Color, success: Color, danger: Color) -> (r:
        Palette)
        ensures
            r == (Palette { background, text, primary, success, danger }),
    {
        Palette { background, text, primary, success, danger }
    }
}

/// The element that a script value stands for: a string becomes literal
/// text, a button, container or column handle becomes that widget, and
/// every other value is a type mismatch.
pub open spec fn spec_value_to_element(v: ScriptValue) -> Result<Element, BridgeError> {
    match v {
        ScriptValue::Str(s) => Ok(Element::Text(s)),
        ScriptValue::Handle(Handle::Button(b)) => Ok(Element::Button(b)),
        ScriptValue::Handle(Handle::Container(c)) => Ok(Element::Container(c)),
        ScriptValue::Handle(Handle::Column(c)) => Ok(Element::Column(c)),
        _ => Err(BridgeError::TypeMismatch),
    }
}

/// Converts a script value into an element, consuming it.
pub fn value_to_element(v: ScriptValue) -> (r: Result<Element, BridgeError>)
    ensures
        r == spec_value_to_element(v),
{
    match v {
        ScriptValue::Str(s) => Ok(Element::Text(s)),
        ScriptValue::Handle(Handle::Button(b)) => Ok(Element::Button(b)),
        ScriptValue::Handle(Handle::Container(c)) => Ok(Element::Container(c)),
        ScriptValue::Handle(Handle::Column(c)) => Ok(Element::Column(c)),
        _ => Err(BridgeError::TypeMismatch),
    }
}

/// The element that a view function's result stands for: a list, or nil,
/// is a column of its items in order, as `Column::from_table` builds it;
/// any other value is coerced as `value_to_element` does.
pub open spec fn view_result_ok(v: ScriptValue, r: Result<Element, BridgeError>) -> bool {
    match v {
        ScriptValue::Nil => r matches Ok(Element::Column(c)) && Column::is_fresh(c, Seq::empty()),
        ScriptValue::Table(items) => if all_elements(items@) {
            r matches Ok(Element::Column(c)) && Column::is_fresh(c, elements_of(items@))
        } else {
            r == Err::<Element, BridgeError>(BridgeError::TypeMismatch)
        },
        _ => r == spec_value_to_element(v),
    }
}

/// Whether every value of `items` converts to an element.
pub open spec fn all_elements(items: Seq<ScriptValue>) -> bool {
    forall|i: int| 0 <= i < items.len() ==> (#[trigger] spec_value_to_element(items[i])) is Ok
}

/// The elements of `items`, in order, where each converts.
pub open spec fn elements_of(items: Seq<ScriptValue>) -> Seq<Element> {
    items.map_values(|x: ScriptValue| spec_value_to_element(x)->Ok_0)
}

impl Column {
    /// Whether `c` has the children `children` and every setting at its
    /// default.
    pub open spec fn is_fresh(c: Column, children: Seq<Element>) -> bool {
        &&& c.children@ == children
        &&& c.spacing == 0
        &&& c.padding == no_padding()
        &&& c.width == Length::Shrink
        &&& c.height == Length::Shrink
        &&& c.max_width.is_none()
        &&& c.align_x == Alignment::Start
        &&& !c.clip
    }

    fn with_children(children: Vec<Element>) -> (r: Column)
        ensures
            Column::is_fresh(r, children@),
    {
        Column {
            children,
            spacing: 0,
            padding: Padding { top: 0, right: 0, bottom: 0, left: 0 },
            width: Length::Shrink,
            height: Length::Shrink,
            max_width: None,
            align_x: Alignment::Start,
            clip: false,
        }
    }

    /// A column from a script list: nil gives an empty column, a sequence
    /// gives one child per item in the same order, and anything else is a
    /// bad argument. An item that is no element makes it a type mismatch.
    pub fn from_table(v: ScriptValue) -> (r: Result<Column, BridgeError>)
        ensures
            v is Nil ==> r is Ok && Column::is_fresh(r->Ok_0, Seq::empty()),
            v matches ScriptValue::Table(items) ==> if all_elements(items@) {
                r is Ok && Column::is_fresh(r->Ok_0, elements_of(items@))
            } else {
                r == Err::<Column, BridgeError>(BridgeError::TypeMismatch)
            },
            !(v is Nil) && !(v is Table) ==> r == Err::<Column, BridgeError>(
                BridgeError::BadArgument,
            ),
    {
        match v {
            ScriptValue::Nil => Ok(Column::with_children(Vec::new())),
            ScriptValue::Table(items) => {
                let ghost all = items@;
                let count: usize = items.len();
                let mut rest = items;
                let mut children: Vec<Element> = Vec::new();
                let mut k: usize = 0;
                while k < count
                    invariant
                        v matches ScriptValue::Table(it) && it@ == all,
                        count == all.len(),
                        k + rest@.len() == all.len(),
                        rest@ == all.skip(k as int),
                        children@ == elements_of(all.take(k as int)),
                        all_elements(all.take(k as int)),
                    decreases rest@.len(),
                {
                    let item = rest.remove(0);
                    assert(item == all[k as int]);
                    match value_to_element(item) {
                        Ok(e) => {
                            children.push(e);
                            assert(all.take(k + 1) =~= all.take(k as int).push(all[k as int]));
                            assert(all.skip(k + 1) =~= rest@);
                            k = k + 1;
                            assert(children@ =~= elements_of(all.take(k as int)));
                        },
                        Err(e) => {
                            assert(!all_elements(all));
                            return Err(e);
                        },
                    }
                }
                assert(all.take(k as int) =~= all);
                Ok(Column::with_children(children))
            },
            _ => Err(BridgeError::BadArgument),
        }
    }

    /// Appends a child at the end.
    pub fn push(self, child: ScriptValue) -> (r: Result<Column, BridgeError>)
        ensures
            match spec_value_to_element(child) {
                Ok(e) => r is Ok && r->Ok_0 == (Column {
                    children: r->Ok_0.children,
                    ..self
                }) && r->Ok_0.children@ == self.children@.push(e),
                Err(x) => r == Err::<Column, BridgeError>(x),
            },
    {
        let mut c = self;
        match value_to_element(child) {
            Ok(e) => {
                c.children.push(e);
                Ok(c)
            },
            Err(x) => Err(x),
        }
    }
}

impl Column {
    pub fn spacing(self, px: u32) -> (r: Column)
        ensures
            r == (Column { spacing: px, ..self }),
    {
        Column { spacing: px, ..self }
    }

    pub fn padding(self, p: Padding) -> (r: Column)
        ensures
            r == (Column { padding: p, ..self }),
    {
        Column { padding: p, ..self }
    }

    pub fn width(self, l: Length) -> (r: Column)
        ensures
            r == (Column { width: l, ..self }),
    {
        Column { width: l, ..self }
    }

    pub fn height(self, l: Length) -> (r: Column)
        ensures
            r == (Column { height: l, ..self }),
    {
        Column { height: l, ..self }
    }

    pub fn max_width(self, px: u32) -> (r: Column)
        ensures
            r == (Column { max_width: Some(px), ..self }),
    {
        Column { max_width: Some(px), ..self }
    }

    pub fn align_x(self, a: Alignment) -> (r: Column)
        ensures
            r == (Column { align_x: a, ..self }),
    {
        Column { align_x: a, ..self }
    }

    pub fn clip(self, clip: bool) -> (r: Column)
        ensures
            r == (Column { clip, ..self }),
    {
        Column { clip, ..self }
    }
}

impl Container {
    /// Whether `c` wraps `e` with every setting at its default.
    pub open spec fn is_fresh(c: Container, e: Element) -> bool {
        &&& *c.content == e
        &&& c.padding == no_padding()
        &&& c.width == Length::Shrink
        &&& c.height == Length::Shrink
        &&& c.max_width.is_none()
        &&& c.max_height.is_none()
        &&& c.align_x == Alignment::Start
        &&& c.align_y == Alignment::Start
        &&& !c.clip
        &&& c.style.is_none()
    }

    /// A container around the element that `child` stands for.
    pub fn new(child: ScriptValue) -> (r: Result<Container, BridgeError>)
        ensures
            match spec_value_to_element(child) {
                Ok(e) => r is Ok && Container::is_fresh(r->Ok_0, e),
                Err(x) => r == Err::<Container, BridgeError>(x),
            },
    {
        match value_to_element(child) {
            Ok(e) => Ok(
                Container {
                    content: Box::new(e),
                    padding: Padding { top: 0, right: 0, bottom: 0, left: 0 },
                    width: Length::Shrink,
                    height: Length::Shrink,
                    max_width: None,
                    max_height: None,
                    align_x: Alignment::Start,
                    align_y: Alignment::Start,
                    clip: false,
                    style: None,
                },
            ),
            Err(x) => Err(x),
        }
    }

    pub fn padding(self, p: Padding) -> (r: Container)
        ensures
            r == (Container { padding: p, ..self }),
    {
        Container { padding: p, ..self }
    }

    pub fn width(self, l: Length) -> (r: Container)
        ensures
            r == (Container { width: l, ..self }),
    {
        Container { width: l, ..self }
    }

    pub fn height(self, l: Length) -> (r: Container)
        ensures
            r == (Container { height: l, ..self }),
    {
        Container { height: l, ..self }
    }

    pub fn max_width(self, px: u32) -> (r: Container)
        ensures
            r == (Container { max_width: Some(px), ..self }),
    {
        Container { max_width: Some(px), ..self }
    }

    pub fn max_height(self, px: u32) -> (r: Container)
        ensures
            r == (Container { max_height: Some(px), ..self }),
    {
        Container { max_height: Some(px), ..self }
    }

    /// Sets the width and centres the content horizontally.
    pub fn center_x(self, l: Length) -> (r: Container)
        ensures
            r == (Container { width: l, align_x: Alignment::Center, ..self }),
    {
        Container { width: l, align_x: Alignment::Center, ..self }
    }

    /// Sets the height and centres the content vertically.
    pub fn center_y(self, l: Length) -> (r: Container)
        ensures
            r == (Container { height: l, align_y: Alignment::Center, ..self }),
    {
        Container { height: l, align_y: Alignment::Center, ..self }
    }

    /// Sets both sizes and centres the content both ways.
    pub fn center(self, l: Length) -> (r: Container)
        ensures
            r == (Container {
                width: l,
                height: l,
                align_x: Alignment::Center,
                align_y: Alignment::Center,
                ..self
            }),
    {
        self.center_x(l).center_y(l)
    }

    pub fn align_x(self, a: Alignment) -> (r: Container)
        ensures
            r == (Container { align_x: a, ..self }),
    {
        Container { align_x: a, ..self }
    }

    pub fn align_y(self, a: Alignment) -> (r: Container)
        ensures
            r == (Container { align_y: a, ..self }),
    {
        Container { align_y: a, ..self }
    }

    pub fn clip(self, clip: bool) -> (r: Container)
        ensures
            r == (Container { clip, ..self }),
    {
        Container { clip, ..self }
    }

    pub fn style(self, st: Style) -> (r: Container)
        ensures
            r == (Container { style: Some(st), ..self }),
    {
        Container { style: Some(st), ..self }
    }
}

impl Button {
    /// Whether `b` shows `e`, emits nothing, and has every other setting at
    /// its default.
    pub open spec fn is_fresh(b: Button, e: Element) -> bool {
        &&& *b.content == e
        &&& b.on_press.is_none()
        &&& b.width == Length::Shrink
        &&& b.height == Length::Shrink
        &&& b.padding == default_button_padding()
        &&& !b.clip
    }

    /// A button showing the element that `child` stands for.
    pub fn new(child: ScriptValue) -> (r: Result<Button, BridgeError>)
        ensures
            match spec_value_to_element(child) {
                Ok(e) => r is Ok && Button::is_fresh(r->Ok_0, e),
                Err(x) => r == Err::<Button, BridgeError>(x),
            },
    {
        match value_to_element(child) {
            Ok(e) => Ok(
                Button {
                    content: Box::new(e),
                    on_press: None,
                    width: Length::Shrink,
                    height: Length::Shrink,
                    padding: Padding { top: 5, right: 10, bottom: 5, left: 10 },
                    clip: false,
                },
            ),
            Err(x) => Err(x),
        }
    }

    /// The button emits `m` when pressed.
    pub fn on_press(self, m: ScriptMessage) -> (r: Button)
        ensures
            r == (Button { on_press: Some(m), ..self }),
    {
        Button { on_press: Some(m), ..self }
    }

    pub fn width(self, l: Length) -> (r: Button)
        ensures
            r == (Button { width: l, ..self }),
    {
        Button { width: l, ..self }
    }

    pub fn height(self, l: Length) -> (r: Button)
        ensures
            r == (Button { height: l, ..self }),
    {
        Button { height: l, ..self }
    }

    pub fn padding(self, p: Padding) -> (r: Button)
        ensures
            r == (Button { padding: p, ..self }),
    {
        Button { padding: p, ..self }
    }

    pub fn clip(self, clip: bool) -> (r: Button)
        ensures
            r == (Button { clip, ..self }),
    {
        Button { clip, ..self }
    }
}

/// A change that a script asks of a widget builder.
#[derive(Debug)]
pub enum Setting {
    Padding(Padding),
    Width(Length),
    Height(Length),
    MaxWidth(u32),
    MaxHeight(u32),
    CenterX(Length),
    CenterY(Length),
    Center(Length),
    AlignX(Alignment),
    AlignY(Alignment),
    Clip(bool),
    Style(Style),
    Spacing(u32),
    OnPress(ScriptMessage),
}

/// The builder after the setting `s` was applied to `h`, or a type mismatch
/// where that kind of builder has no such setting. Containers take every
/// setting but spacing and a press message; columns take padding, sizes,
/// the maximum width, horizontal alignment, clipping and spacing; buttons
/// take padding, sizes, clipping and a press message.
pub open spec fn spec_apply(h: Handle, s: Setting) -> Result<Handle, BridgeError> {
    match h {
        Handle::Container(c) => match s {
            Setting::Padding(p) => Ok(Handle::Container(Container { padding: p, ..c })),
            Setting::Width(l) => Ok(Handle::Container(Container { width: l, ..c })),
            Setting::Height(l) => Ok(Handle::Container(Container { height: l, ..c })),
            Setting::MaxWidth(px) => Ok(Handle::Container(Container { max_width: Some(px), ..c })),
            Setting::MaxHeight(px) => Ok(
                Handle::Container(Container { max_height: Some(px), ..c }),
            ),
            Setting::CenterX(l) => Ok(
                Handle::Container(Container { width: l, align_x: Alignment::Center, ..c }),
            ),
            Setting::CenterY(l) => Ok(
                Handle::Container(Container { height: l, align_y: Alignment::Center, ..c }),
            ),
            Setting::Center(l) => Ok(
                Handle::Container(
                    Container {
                        width: l,
                        height: l,
                        align_x: Alignment::Center,
                        align_y: Alignment::Center,
                        ..c
                    },
                ),
            ),
            Setting::AlignX(a) => Ok(Handle::Container(Container { align_x: a, ..c })),
            Setting::AlignY(a) => Ok(Handle::Container(Container { align_y: a, ..c })),
            Setting::Clip(b) => Ok(Handle::Container(Container { clip: b, ..c })),
            Setting::Style(st) => Ok(Handle::Container(Container { style: Some(st), ..c })),
            _ => Err(BridgeError::TypeMismatch),
        },
        Handle::Column(c) => match s {
            Setting::Padding(p) => Ok(Handle::Column(Column { padding: p, ..c })),
            Setting::Width(l) => Ok(Handle::Column(Column { width: l, ..c })),
            Setting::Height(l) => Ok(Handle::Column(Column { height: l, ..c })),
            Setting::MaxWidth(px) => Ok(Handle::Column(Column { max_width: Some(px), ..c })),
            Setting::AlignX(a) => Ok(Handle::Column(Column { align_x: a, ..c })),
            Setting::Clip(b) => Ok(Handle::Column(Column { clip: b, ..c })),
            Setting::Spacing(px) => Ok(Handle::Column(Column { spacing: px, ..c })),
            _ => Err(BridgeError::TypeMismatch),
        },
        Handle::Button(b) => match s {
            Setting::Padding(p) => Ok(Handle::Button(Button { padding: p, ..b })),
            Setting::Width(l) => Ok(Handle::Button(Button { width: l, ..b })),
            Setting::Height(l) => Ok(Handle::Button(Button { height: l, ..b })),
            Setting::Clip(x) => Ok(Handle::Button(Button { clip: x, ..b })),
            Setting::OnPress(m) => Ok(Handle::Button(Button { on_press: Some(m), ..b })),
            _ => Err(BridgeError::TypeMismatch),
        },
        _ => Err(BridgeError::TypeMismatch),
    }
}

impl Handle {
    /// Whether the handle holds a widget builder, which is consumed when
    /// used, rather than a plain styling value, which may be used again.
    pub open spec fn is_builder(self) -> bool {
        self is Button || self is Container || self is Column
    }

    /// A copy of a plain styling value; `None` for a widget builder.
    pub fn copy_value(&self) -> (r: Option<Handle>)
        ensures
            self.is_builder() ==> r.is_none(),
            !self.is_builder() ==> r == Some(*self),
    {
        match self {
            Handle::Length(l) => Some(Handle::Length(*l)),
            Handle::Padding(p) => Some(Handle::Padding(*p)),
            Handle::Alignment(a) => Some(Handle::Alignment(*a)),
            Handle::Color(c) => Some(Handle::Color(*c)),
            Handle::Border(b) => Some(Handle::Border(*b)),
            Handle::Style(st) => Some(Handle::Style(*st)),
            Handle::Palette(p) => Some(Handle::Palette(*p)),
            Handle::Button(_) | Handle::Container(_) | Handle::Column(_) => None,
        }
    }

    /// Applies a setting to the builder, consuming it.
    pub fn apply(self, s: Setting) -> (r: Result<Handle, BridgeError>)
        ensures
            r == spec_apply(self, s),
    {
        match self {
            Handle::Container(c) => match s {
                Setting::Padding(p) => Ok(Handle::Container(c.padding(p))),
                Setting::Width(l) => Ok(Handle::Container(c.width(l))),
                Setting::Height(l) => Ok(Handle::Container(c.height(l))),
                Setting::MaxWidth(px) => Ok(Handle::Container(c.max_width(px))),
                Setting::MaxHeight(px) => Ok(Handle::Container(c.max_height(px))),
                Setting::CenterX(l) => Ok(Handle::Container(c.center_x(l))),
                Setting::CenterY(l) => Ok(Handle::Container(c.center_y(l))),
                Setting::Center(l) => Ok(Handle::Container(c.center(l))),
                Setting::AlignX(a) => Ok(Handle::Container(c.align_x(a))),
                Setting::AlignY(a) => Ok(Handle::Container(c.align_y(a))),
                Setting::Clip(b) => Ok(Handle::Container(c.clip(b))),
                Setting::Style(st) => Ok(Handle::Container(c.style(st))),
                _ => Err(BridgeError::TypeMismatch),
            },
            Handle::Column(c) => match s {
                Setting::Padding(p) => Ok(Handle::Column(c.padding(p))),
                Setting::Width(l) => Ok(Handle::Column(c.width(l))),
                Setting::Height(l) => Ok(Handle::Column(c.height(l))),
                Setting::MaxWidth(px) => Ok(Handle::Column(c.max_width(px))),
                Setting::AlignX(a) => Ok(Handle::Column(c.align_x(a))),
                Setting::Clip(b) => Ok(Handle::Column(c.clip(b))),
                Setting::Spacing(px) => Ok(Handle::Column(c.spacing(px))),
                _ => Err(BridgeError::TypeMismatch),
            },
            Handle::Button(b) => match s {
                Setting::Padding(p) => Ok(Handle::Button(b.padding(p))),
                Setting::Width(l) => Ok(Handle::Button(b.width(l))),
                Setting::Height(l) => Ok(Handle::Button(b.height(l))),
                Setting::Clip(x) => Ok(Handle::Button(b.clip(x))),
                Setting::OnPress(m) => Ok(Handle::Button(b.on_press(m))),
                _ => Err(BridgeError::TypeMismatch),
            },
            _ => Err(BridgeError::TypeMismatch),
        }
    }

    /// Appends a child to a column builder; any other builder is a type
    /// mismatch.
    pub fn push(self, child: ScriptValue) -> (r: Result<Handle, BridgeError>)
        ensures
            !(self is Column) ==> r == Err::<Handle, BridgeError>(BridgeError::TypeMismatch),
            self matches Handle::Column(c) ==> match spec_value_to_element(child) {
                Ok(e) => r matches Ok(Handle::Column(c2)) && c2 == (Column {
                    children: c2.children,
                    ..c
                }) && c2.children@ == c.children@.push(e),
                Err(x) => r == Err::<Handle, BridgeError>(x),
            },
    {
        match self {
            Handle::Column(c) => match c.push(child) {
                Ok(c2) => Ok(Handle::Column(c2)),
                Err(x) => Err(x),
            },
            _ => Err(BridgeError::TypeMismatch),
        }
    }
}

/// Converts what a view function returned into the element to draw.
pub fn element_of_view(v: ScriptValue) -> (r: Result<Element, BridgeError>)
    ensures
        view_result_ok(v, r),
{
    match v {
        ScriptValue::Nil => match Column::from_table(ScriptValue::Nil) {
            Ok(c) => Ok(Element::Column(c)),
            Err(e) => Err(e),
        },
        ScriptValue::Table(items) => match Column::from_table(ScriptValue::Table(items)) {
            Ok(c) => Ok(Element::Column(c)),
            Err(e) => Err(e),
        },
        other => value_to_element(other),
    }
}

} // verus!
