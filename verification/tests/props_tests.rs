use tuirealm::{
    BorderType, Borders, Color, InputType, Modifiers, PropPayload, PropValue, Props, PropsBuilder,
    TextParts, TextSpan,
};

fn get<'a>(entries: &'a [(String, PropValue)], key: &str) -> Option<&'a PropValue> {
    entries.iter().find(|p| p.0 == key).map(|p| &p.1)
}

#[test]
fn test_props_default() {
    let props: Props = Props::default();
    assert_eq!(props.visible, true);
    assert_eq!(props.background, Color::Reset);
    assert_eq!(props.foreground, Color::Reset);
    assert_eq!(props.borders.borders, Borders::all());
    assert_eq!(props.borders.color, Color::Reset);
    assert_eq!(props.borders.variant, BorderType::Plain);
    assert_eq!(props.modifiers, Modifiers::empty());
    assert_eq!(props.palette.len(), 0);
    assert!(props.texts.title.is_none());
    assert_eq!(props.own.len(), 0);
    assert!(props.texts.spans.is_none());
}

#[test]
fn test_props_values() {
    PropPayload::One(PropValue::Usize(2));
    PropPayload::Tup2(PropValue::Bool(true), PropValue::Usize(128));
    PropPayload::Tup3(
        PropValue::Bool(true),
        PropValue::Usize(128),
        PropValue::Str(String::from("omar")),
    );
    PropPayload::Tup4(
        PropValue::Bool(true),
        PropValue::U8(128),
        PropValue::Str(String::from("pippo")),
        PropValue::Isize(-2),
    );
    PropPayload::List(vec![
        PropValue::U16(1),
        PropValue::U32(2),
        PropValue::U64(3),
        PropValue::U128(4),
    ]);
    let mut map: Vec<(String, PropValue)> = Vec::new();
    map.push((String::from("a"), PropValue::I8(4)));
    assert_eq!(*get(&map, "a").unwrap(), PropValue::I8(4));
    map.push((String::from("b"), PropValue::I16(-8)));
    assert_eq!(*get(&map, "b").unwrap(), PropValue::I16(-8));
    map.push((String::from("c"), PropValue::I32(16)));
    assert_eq!(*get(&map, "c").unwrap(), PropValue::I32(16));
    map.push((String::from("d"), PropValue::I64(-32)));
    assert_eq!(*get(&map, "d").unwrap(), PropValue::I64(-32));
    map.push((String::from("e"), PropValue::I128(64)));
    assert_eq!(*get(&map, "e").unwrap(), PropValue::I128(64));
    map.push((String::from("f"), PropValue::Color(Color::Red)));
    assert_eq!(*get(&map, "f").unwrap(), PropValue::Color(Color::Red));
    map.push((String::from("g"), PropValue::InputType(InputType::Number)));
    assert_eq!(
        *get(&map, "g").unwrap(),
        PropValue::InputType(InputType::Number)
    );
    map.push((String::from("h"), PropValue::U8(0)));
    assert_eq!(*get(&map, "h").unwrap(), PropValue::U8(0));
    map.push((String::from("i"), PropValue::Bool(true)));
    assert_eq!(*get(&map, "i").unwrap(), PropValue::Bool(true));
    map.push((String::from("j"), PropValue::U16(256)));
    assert_eq!(*get(&map, "j").unwrap(), PropValue::U16(256));
    map.push((String::from("k"), PropValue::U32(65536)));
    assert_eq!(*get(&map, "k").unwrap(), PropValue::U32(65536));
    map.push((String::from("l"), PropValue::U64(10000000000)));
    assert_eq!(*get(&map, "l").unwrap(), PropValue::U64(10000000000));
    map.push((String::from("m"), PropValue::Isize(200)));
    assert_eq!(*get(&map, "m").unwrap(), PropValue::Isize(200));
    map.push((String::from("n"), PropValue::F32Bits(0.23f32.to_bits())));
    assert_eq!(
        *get(&map, "n").unwrap(),
        PropValue::F32Bits(0.23f32.to_bits())
    );
    map.push((String::from("s"), PropValue::InputType(InputType::Number)));
    assert_eq!(
        *get(&map, "s").unwrap(),
        PropValue::InputType(InputType::Number)
    );
    PropPayload::Entries(map);
    let mut link: Vec<PropPayload> = Vec::new();
    link.push(PropPayload::One(PropValue::Usize(1)));
    link.push(PropPayload::Tup2(PropValue::Usize(2), PropValue::Usize(4)));
    PropPayload::Linked(link);
}

#[test]
fn structural_equality_across_variants() {
    assert_eq!(PropValue::Bool(true), PropValue::Bool(true));
    assert_ne!(PropValue::Bool(true), PropValue::Bool(false));
    assert_ne!(PropValue::Bool(true), PropValue::U8(1));
    assert_eq!(
        PropValue::Str(String::from("hello")),
        PropValue::Str(String::from("hello"))
    );
    assert_ne!(
        PropValue::Str(String::from("hello")),
        PropValue::Str(String::from("world"))
    );
    assert_eq!(PropValue::F64Bits(1.5f64.to_bits()), PropValue::F64Bits(1.5f64.to_bits()));
    assert_eq!(
        PropPayload::One(PropValue::U8(7)),
        PropPayload::One(PropValue::U8(7))
    );
    assert_eq!(
        PropPayload::Tup4(
            PropValue::U8(1),
            PropValue::U8(2),
            PropValue::U8(3),
            PropValue::U8(4)
        ),
        PropPayload::Tup4(
            PropValue::U8(1),
            PropValue::U8(2),
            PropValue::U8(3),
            PropValue::U8(4)
        )
    );
    assert_eq!(
        PropPayload::List(vec![PropValue::Str(String::from("x")), PropValue::U64(9)]),
        PropPayload::List(vec![PropValue::Str(String::from("x")), PropValue::U64(9)])
    );
    assert_ne!(
        PropPayload::List(vec![PropValue::U64(9)]),
        PropPayload::List(vec![PropValue::U64(8)])
    );
    assert_eq!(
        PropPayload::Entries(vec![(String::from("k"), PropValue::Bool(false))]),
        PropPayload::Entries(vec![(String::from("k"), PropValue::Bool(false))])
    );
    let nested_a = PropPayload::Linked(vec![
        PropPayload::One(PropValue::Usize(1)),
        PropPayload::Linked(vec![PropPayload::Empty, PropPayload::One(PropValue::U8(3))]),
    ]);
    let nested_b = PropPayload::Linked(vec![
        PropPayload::One(PropValue::Usize(1)),
        PropPayload::Linked(vec![PropPayload::Empty, PropPayload::One(PropValue::U8(3))]),
    ]);
    assert_eq!(nested_a, nested_b);
    let nested_c = PropPayload::Linked(vec![
        PropPayload::One(PropValue::Usize(1)),
        PropPayload::Linked(vec![PropPayload::Empty, PropPayload::One(PropValue::U8(4))]),
    ]);
    assert_ne!(nested_a, nested_c);
    assert_eq!(PropPayload::Empty, PropPayload::Empty);
    assert_ne!(PropPayload::Empty, PropPayload::One(PropValue::Bool(false)));
}

#[test]
fn builder_round_trip() {
    let props = PropsBuilder::default()
        .with_foreground(Color::LightYellow)
        .with_background(Color::Rgb(10, 20, 30))
        .with_borders(Borders::all(), BorderType::Rounded, Color::LightYellow)
        .bold()
        .italic()
        .with_texts(TextParts {
            title: Some(String::from("a title")),
            spans: Some(vec![TextSpan {
                content: String::from("body"),
                fg: Color::Red,
                bg: Color::Reset,
                modifiers: Modifiers::empty(),
            }]),
        })
        .with_palette(String::from("accent"), Color::Cyan)
        .with_own(
            String::from("extra"),
            PropPayload::One(PropValue::Str(String::from("v"))),
        )
        .build();
    let rebuilt = PropsBuilder::from(props.clone()).build();
    assert_eq!(rebuilt, props);
}

#[test]
fn builder_sets_single_fields() {
    let props = PropsBuilder::default().hidden().build();
    assert_eq!(props.visible, false);
    let props = PropsBuilder::from(props).visible().build();
    assert_eq!(props.visible, true);
    let props = PropsBuilder::default()
        .with_modifiers(Modifiers {
            underlined: true,
            ..Modifiers::empty()
        })
        .build();
    assert!(props.modifiers.underlined);
    assert!(!props.modifiers.bold);
}

#[test]
fn palette_replaces_same_key() {
    let props = PropsBuilder::default()
        .with_palette(String::from("k"), Color::Red)
        .with_palette(String::from("k"), Color::Blue)
        .with_palette(String::from("other"), Color::Green)
        .build();
    assert_eq!(props.palette.len(), 2);
    let found = props.palette.iter().find(|p| p.0 == "k").unwrap();
    assert_eq!(found.1, Color::Blue);
    let other = props.palette.iter().find(|p| p.0 == "other").unwrap();
    assert_eq!(other.1, Color::Green);
}
