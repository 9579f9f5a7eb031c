use tuirealm::{
    dispatch, Color, Event, Input, KeyCode, KeyEvent, Label, Modifiers, Msg, Payload, Props,
    PropsBuilder, Rect, TextParts, TextSpan, Update, Value, View,
};

fn key(code: KeyCode) -> Event {
    Event::Key(KeyEvent::plain(code))
}

fn input_component() -> Box<Input> {
    Box::new(Input::new(Props::default()))
}

fn label_component() -> Box<Label> {
    Box::new(Label::new(Props::default()))
}

#[test]
fn mount_replaces_existing_id() {
    let mut view = View::init();
    view.mount("X", input_component());
    view.active("X");
    // The input answers enter with a submit message.
    let first = view.on(key(KeyCode::Enter));
    assert!(matches!(first, Some((_, Msg::Submit(_)))));
    // Remounting under the same id replaces the input with a label; the old
    // input's state is unreachable and enter now comes back as a plain key.
    view.mount("X", label_component());
    view.active("X");
    let second = view.on(key(KeyCode::Enter));
    assert_eq!(
        second,
        Some((String::from("X"), Msg::Key(KeyEvent::plain(KeyCode::Enter))))
    );
}

#[test]
fn active_with_unmounted_id_keeps_focus() {
    let mut view = View::init();
    view.mount("A", input_component());
    view.active("A");
    view.active("B");
    let answer = view.on(key(KeyCode::Enter));
    assert!(matches!(answer, Some((id, _)) if id == "A"));
    view.mount("B", label_component());
    view.active("B");
    let answer = view.on(key(KeyCode::Enter));
    assert!(matches!(answer, Some((id, _)) if id == "B"));
}

#[test]
fn unmount_focused_clears_focus() {
    let mut view = View::init();
    view.mount("A", input_component());
    view.active("A");
    view.unmount("A");
    assert_eq!(view.on(key(KeyCode::Enter)), None);
    assert!(view.get_props("A").is_none());
}

#[test]
fn unmount_unknown_id_is_noop() {
    let mut view = View::init();
    view.mount("A", input_component());
    view.active("A");
    view.unmount("B");
    let answer = view.on(key(KeyCode::Enter));
    assert!(matches!(answer, Some((id, _)) if id == "A"));
}

#[test]
fn on_without_focus_returns_none() {
    let mut view = View::init();
    view.mount("A", input_component());
    assert_eq!(view.on(key(KeyCode::Char('x'))), None);
}

#[test]
fn get_props_and_update_on_unknown_id() {
    let mut view = View::init();
    assert!(view.get_props("nope").is_none());
    assert_eq!(view.update("nope", Props::default()), None);
}

#[test]
fn update_replaces_configuration_wholesale() {
    let mut view = View::init();
    view.mount("A", label_component());
    let replacement = PropsBuilder::default()
        .hidden()
        .with_foreground(Color::Magenta)
        .build();
    assert_eq!(view.update("A", replacement), None);
    let seen = view.get_props("A").unwrap();
    assert_eq!(seen.visible, false);
    assert_eq!(seen.foreground, Color::Magenta);
}

#[test]
fn render_unknown_id_is_none() {
    let view = View::init();
    let area = Rect { x: 0, y: 0, width: 10, height: 3 };
    assert!(view.render("nope", area).is_none());
}

#[test]
fn render_hidden_component_is_none() {
    let mut view = View::init();
    let props = PropsBuilder::default().hidden().build();
    view.mount("A", Box::new(Label::new(props)));
    let area = Rect { x: 0, y: 0, width: 10, height: 3 };
    assert!(view.render("A", area).is_none());
}

#[test]
fn render_visible_component_paints_value() {
    let mut view = View::init();
    view.mount("A", input_component());
    view.active("A");
    view.on(key(KeyCode::Char('z')));
    let area = Rect { x: 0, y: 0, width: 10, height: 3 };
    let painted = view.render("A", area).unwrap();
    assert_eq!(painted.lines.len(), 1);
    assert_eq!(painted.lines[0].content, "z");
    let degenerate = Rect { x: 0, y: 0, width: 0, height: 3 };
    assert!(view.render("A", degenerate).is_none());
}

struct ScenarioModel {
    view: View,
    quit: bool,
}

impl Update for ScenarioModel {
    fn update(&mut self, msg: Option<(String, Msg)>) -> Option<(String, Msg)> {
        match msg {
            Some((id, Msg::Submit(Payload::One(Value::Text(typed))))) if id == "INPUT" => {
                let current = self.view.get_props("LABEL").unwrap();
                let props = PropsBuilder::from(current)
                    .with_texts(TextParts {
                        title: None,
                        spans: Some(vec![TextSpan {
                            content: format!("You typed: '{}'", typed),
                            fg: Color::Cyan,
                            bg: Color::Reset,
                            modifiers: Modifiers::empty(),
                        }]),
                    })
                    .build();
                self.view.update("LABEL", props)
            }
            Some((_, Msg::Key(k))) if k.code == KeyCode::Esc => {
                self.quit = true;
                None
            }
            _ => None,
        }
    }
}

#[test]
fn typed_text_reaches_label_through_reducer() {
    let mut view = View::init();
    view.mount("INPUT", input_component());
    view.mount("LABEL", label_component());
    view.active("INPUT");
    let mut model = ScenarioModel { view, quit: false };
    assert!(model.view.on(key(KeyCode::Char('h'))).is_some());
    assert!(model.view.on(key(KeyCode::Char('i'))).is_some());
    let submitted = model.view.on(key(KeyCode::Enter));
    assert_eq!(
        submitted,
        Some((
            String::from("INPUT"),
            Msg::Submit(Payload::One(Value::Text(String::from("hi"))))
        ))
    );
    let outcome = dispatch(&mut model, submitted, 100);
    assert_eq!(outcome, None);
    assert!(!model.quit);
    let label_props = model.view.get_props("LABEL").unwrap();
    let spans = label_props.texts.spans.unwrap();
    assert_eq!(spans.len(), 1);
    assert_eq!(spans[0].content, "You typed: 'hi'");
}

#[test]
fn escape_key_sets_quit_flag() {
    let mut view = View::init();
    view.mount("INPUT", input_component());
    view.mount("LABEL", label_component());
    view.active("INPUT");
    let mut model = ScenarioModel { view, quit: false };
    let msg = model.view.on(key(KeyCode::Esc));
    assert_eq!(
        msg,
        Some((
            String::from("INPUT"),
            Msg::Key(KeyEvent::plain(KeyCode::Esc))
        ))
    );
    let outcome = dispatch(&mut model, msg, 100);
    assert_eq!(outcome, None);
    assert!(model.quit);
    // The label keeps its configuration: no mutation happened on this pass.
    let label_props = model.view.get_props("LABEL").unwrap();
    assert!(label_props.texts.spans.is_none());
}

#[test]
fn dispatch_with_no_message_stops_at_once() {
    let mut view = View::init();
    view.mount("INPUT", input_component());
    let mut model = ScenarioModel { view, quit: false };
    assert_eq!(dispatch(&mut model, None, 100), None);
    assert!(!model.quit);
}

#[test]
fn dispatch_with_no_fuel_returns_message_unchanged() {
    let view = View::init();
    let mut model = ScenarioModel { view, quit: false };
    let msg = Some((String::from("INPUT"), Msg::Change(Payload::Empty)));
    assert_eq!(dispatch(&mut model, msg.clone(), 0), msg);
}

#[test]
fn message_values_compare_structurally() {
    let a = Value::Entries(vec![
        (String::from("k"), Value::List(vec![Value::Bool(true), Value::Int(-3)])),
        (String::from("t"), Value::Text(String::from("v"))),
    ]);
    let b = Value::Entries(vec![
        (String::from("k"), Value::List(vec![Value::Bool(true), Value::Int(-3)])),
        (String::from("t"), Value::Text(String::from("v"))),
    ]);
    assert_eq!(a, b);
    assert_eq!(a.clone(), b);
    assert_ne!(a, Value::Entries(vec![]));
}

#[test]
fn input_edits_its_value() {
    let mut input = Input::new(Props::default());
    let changed = input.handle_event(key(KeyCode::Char('a')));
    assert_eq!(
        changed,
        Some(Msg::Change(Payload::One(Value::Text(String::from("a")))))
    );
    input.handle_event(key(KeyCode::Char('b')));
    let erased = input.handle_event(key(KeyCode::Backspace));
    assert_eq!(
        erased,
        Some(Msg::Change(Payload::One(Value::Text(String::from("a")))))
    );
    let submitted = input.handle_event(key(KeyCode::Enter));
    assert_eq!(
        submitted,
        Some(Msg::Submit(Payload::One(Value::Text(String::from("a")))))
    );
    assert_eq!(input.handle_event(Event::Resize(80, 24)), None);
}
