//! Two small widgets conforming to the component contract: a single-line text
//! input and a read-only label. The event logic is the verified part; painting
//! is delegated to the rendering backend through the drawable description.

use crate::events::{Event, KeyCode};
use crate::msg::{Msg, Payload, Value};
use crate::props::{lemma_props_like_reflexive, props_dup, spans_dup, Props, TextSpan};
use crate::view::{Component, Rect, Render};
use vstd::prelude::*;

verus! {

/// Relies on `String::push`: appends exactly one character at the end.
#[verifier::external_body]
fn string_push(s: &mut String, c: char)
    ensures
        final(s)@ == old(s)@.push(c),
{
    s.push(c);
}

/// Relies on `String::pop`: removes and returns the last character, or does
/// nothing on an empty string.
#[verifier::external_body]
fn string_pop(s: &mut String) -> (r: Option<char>)
    ensures
        old(s)@.len() == 0 ==> r is None && final(s)@ == old(s)@,
        old(s)@.len() > 0 ==> r == Some(old(s)@.last()) && final(s)@ == old(s)@.drop_last(),
{
    s.pop()
}

/// `r` reports that the typed value is now `s`: a change message wrapping one
/// text value equal to `s`.
pub open spec fn reports_change(r: Option<Msg>, s: Seq<char>) -> bool {
    match r {
        Some(m) => match m {
            Msg::Change(p) => match p {
                Payload::One(v) => match v {
                    Value::Text(t) => t@ == s,
                    _ => false,
                },
                _ => false,
            },
            _ => false,
        },
        None => false,
    }
}

/// `r` reports that the value `s` was submitted: a submit message wrapping
/// one text value equal to `s`.
pub open spec fn reports_submit(r: Option<Msg>, s: Seq<char>) -> bool {
    match r {
        Some(m) => match m {
            Msg::Submit(p) => match p {
                Payload::One(v) => match v {
                    Value::Text(t) => t@ == s,
                    _ => false,
                },
                _ => false,
            },
            _ => false,
        },
        None => false,
    }
}

/// A single-line text input: its private state is the typed value.
pub struct Input {
    props: Props,
    value: String,
}

impl Input {
    /// The typed value.
    pub closed spec fn value_view(self) -> Seq<char> {
        self.value@
    }

    /// The current configuration.
    pub closed spec fn props_view(self) -> Props {
        self.props
    }

    /// A fresh input with an empty value.
    pub fn new(props: Props) -> (c: Input)
        ensures
            c.props_view() == props,
            c.value_view().len() == 0,
    {
        Input { props, value: String::new() }
    }

    /// The verified event logic of the input. A printable key appends its
    /// character and reports the new value as changed; backspace removes the
    /// last character (if any) and reports the new value as changed; enter
    /// submits the current value without changing it; every other event
    /// leaves the value alone, and a key among them is handed back as a plain
    /// key message. The configuration is never touched.
    pub fn handle_event(&mut self, ev: Event) -> (r: Option<Msg>)
        ensures
            final(self).props_view() == old(self).props_view(),
            match ev {
                Event::Key(k) => match k.code {
                    KeyCode::Char(c) => final(self).value_view() == old(self).value_view().push(c)
                        && reports_change(r, final(self).value_view()),
                    KeyCode::Backspace => {
                        &&& old(self).value_view().len() == 0 ==> final(self).value_view() == old(
                            self,
                        ).value_view()
                        &&& old(self).value_view().len() > 0 ==> final(self).value_view() == old(
                            self,
                        ).value_view().drop_last()
                        &&& reports_change(r, final(self).value_view())
                    },
                    KeyCode::Enter => final(self).value_view() == old(self).value_view()
                        && reports_submit(r, old(self).value_view()),
                    _ => final(self).value_view() == old(self).value_view() && r == Some(
                        Msg::Key(k),
                    ),
                },
                _ => final(self).value_view() == old(self).value_view() && r is None,
            },
    {
        match ev {
            Event::Key(k) => match k.code {
                KeyCode::Char(c) => {
                    string_push(&mut self.value, c);
                    Some(Msg::Change(Payload::One(Value::Text(self.value.clone()))))
                },
                KeyCode::Backspace => {
                    let _dropped = string_pop(&mut self.value);
                    Some(Msg::Change(Payload::One(Value::Text(self.value.clone()))))
                },
                KeyCode::Enter => Some(
                    Msg::Submit(Payload::One(Value::Text(self.value.clone()))),
                ),
                _ => Some(Msg::Key(k)),
            },
            _ => None,
        }
    }

    /// The drawable description: the typed value in the configured colors.
    /// Nothing to paint when hidden or on a degenerate area.
    pub fn view_state(&self, area: Rect) -> (r: Option<Render>)
        ensures
            (!self.props_view().visible || area.width == 0 || area.height == 0) <==> r is None,
            r matches Some(rd) ==> {
                &&& rd.area == area
                &&& rd.foreground == self.props_view().foreground
                &&& rd.background == self.props_view().background
                &&& rd.borders == self.props_view().borders
                &&& rd.title == self.props_view().texts.title
                &&& rd.lines@.len() == 1
                &&& rd.lines@[0].content@ == self.value_view()
                &&& rd.lines@[0].fg == self.props_view().foreground
                &&& rd.lines@[0].bg == self.props_view().background
                &&& rd.lines@[0].modifiers == self.props_view().modifiers
            },
    {
        if !self.props.visible || area.width == 0 || area.height == 0 {
            return None;
        }
        let span = TextSpan {
            content: self.value.clone(),
            fg: self.props.foreground,
            bg: self.props.background,
            modifiers: self.props.modifiers,
        };
        let mut lines: Vec<TextSpan> = Vec::new();
        lines.push(span);
        Some(
            Render {
                area,
                foreground: self.props.foreground,
                background: self.props.background,
                borders: self.props.borders,
                title: match &self.props.texts.title {
                    Some(t) => Some(t.clone()),
                    None => None,
                },
                lines,
            },
        )
    }
}

impl Component for Input {
    open spec fn props_model(&self) -> Props {
        self.props_view()
    }

    fn on(&mut self, ev: Event) -> Option<Msg> {
        self.handle_event(ev)
    }

    fn get_props(&self) -> Props {
        props_dup(&self.props)
    }

    fn update(&mut self, props: Props) -> Option<Msg> {
        self.props = props;
        proof {
            lemma_props_like_reflexive(self.props);
        }
        None
    }

    fn render(&self, area: Rect) -> Option<Render> {
        self.view_state(area)
    }
}

/// A read-only label: no private state beyond its configuration.
pub struct Label {
    props: Props,
}

impl Label {
    /// The current configuration.
    pub closed spec fn props_view(self) -> Props {
        self.props
    }

    /// A fresh label.
    pub fn new(props: Props) -> (c: Label)
        ensures
            c.props_view() == props,
    {
        Label { props }
    }

    /// The verified event logic of the label: it gives no key any special
    /// meaning, so a key event is handed back as a plain key message and
    /// everything else is ignored; its state never changes.
    pub fn handle_event(&mut self, ev: Event) -> (r: Option<Msg>)
        ensures
            *final(self) == *old(self),
            match ev {
                Event::Key(k) => r == Some(Msg::Key(k)),
                _ => r is None,
            },
    {
        match ev {
            Event::Key(k) => Some(Msg::Key(k)),
            _ => None,
        }
    }

    /// The drawable description: the configured spans, or nothing when hidden
    /// or on a degenerate area.
    pub fn view_state(&self, area: Rect) -> (r: Option<Render>)
        ensures
            (!self.props_view().visible || area.width == 0 || area.height == 0) <==> r is None,
            r matches Some(rd) ==> {
                &&& rd.area == area
                &&& rd.foreground == self.props_view().foreground
                &&& rd.background == self.props_view().background
                &&& rd.borders == self.props_view().borders
                &&& rd.title == self.props_view().texts.title
                &&& (match self.props_view().texts.spans {
                    Some(sp) => rd.lines@ == sp@,
                    None => rd.lines@.len() == 0,
                })
            },
    {
        if !self.props.visible || area.width == 0 || area.height == 0 {
            return None;
        }
        let lines: Vec<TextSpan> = match &self.props.texts.spans {
            Some(spans) => spans_dup(spans),
            None => Vec::new(),
        };
        Some(
            Render {
                area,
                foreground: self.props.foreground,
                background: self.props.background,
                borders: self.props.borders,
                title: match &self.props.texts.title {
                    Some(t) => Some(t.clone()),
                    None => None,
                },
                lines,
            },
        )
    }
}

impl Component for Label {
    open spec fn props_model(&self) -> Props {
        self.props_view()
    }

    fn on(&mut self, ev: Event) -> Option<Msg> {
        self.handle_event(ev)
    }

    fn get_props(&self) -> Props {
        props_dup(&self.props)
    }

    fn update(&mut self, props: Props) -> Option<Msg> {
        self.props = props;
        proof {
            lemma_props_like_reflexive(self.props);
        }
        None
    }

    fn render(&self, area: Rect) -> Option<Render> {
        self.view_state(area)
    }
}

} // verus!
