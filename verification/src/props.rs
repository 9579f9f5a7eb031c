//! Property model: the immutable configuration snapshot attached to every
//! component, together with the closed tagged unions (`PropPayload`,
//! `PropValue`) that carry widget-specific extension data.

use crate::keylist::distinct_keys;
use vstd::prelude::*;

verus! {

/// A terminal color. `Reset` is the neutral sentinel meaning "the terminal's
/// default"; the rendering backend interprets the rest.
#[derive(Clone, Copy, PartialEq, Eq, Structural, Debug)]
pub enum Color {
    Reset,
    Black,
    Red,
    Green,
    Yellow,
    Blue,
    Magenta,
    Cyan,
    Gray,
    DarkGray,
    LightRed,
    LightGreen,
    LightYellow,
    LightBlue,
    LightMagenta,
    LightCyan,
    White,
    Rgb(u8, u8, u8),
    Indexed(u8),
}

/// A set of text style modifiers, one flag per modifier.
#[derive(Clone, Copy, PartialEq, Eq, Structural, Debug)]
pub struct Modifiers {
    pub bold: bool,
    pub dim: bool,
    pub italic: bool,
    pub underlined: bool,
    pub slow_blink: bool,
    pub rapid_blink: bool,
    pub reversed: bool,
    pub hidden: bool,
    pub crossed_out: bool,
}

impl Modifiers {
    /// The empty modifier set: no flag raised.
    pub open spec fn spec_empty() -> Modifiers {
        Modifiers {
            bold: false,
            dim: false,
            italic: false,
            underlined: false,
            slow_blink: false,
            rapid_blink: false,
            reversed: false,
            hidden: false,
            crossed_out: false,
        }
    }

    pub fn empty() -> (m: Modifiers)
        ensures
            m == Modifiers::spec_empty(),
    {
        Modifiers {
            bold: false,
            dim: false,
            italic: false,
            underlined: false,
            slow_blink: false,
            rapid_blink: false,
            reversed: false,
            hidden: false,
            crossed_out: false,
        }
    }
}

/// Which sides of a component get a border.
#[derive(Clone, Copy, PartialEq, Eq, Structural, Debug)]
pub struct Borders {
    pub top: bool,
    pub right: bool,
    pub bottom: bool,
    pub left: bool,
}

impl Borders {
    /// All four sides.
    pub open spec fn spec_all() -> Borders {
        Borders { top: true, right: true, bottom: true, left: true }
    }

    pub fn all() -> (b: Borders)
        ensures
            b == Borders::spec_all(),
    {
        Borders { top: true, right: true, bottom: true, left: true }
    }

    /// No side at all.
    pub open spec fn spec_none() -> Borders {
        Borders { top: false, right: false, bottom: false, left: false }
    }

    pub fn none() -> (b: Borders)
        ensures
            b == Borders::spec_none(),
    {
        Borders { top: false, right: false, bottom: false, left: false }
    }
}

/// How a border is drawn.
#[derive(Clone, Copy, PartialEq, Eq, Structural, Debug)]
pub enum BorderType {
    Plain,
    Rounded,
    Double,
    Thick,
}

/// The full border description of a component: which sides, in which variant,
/// in which color.
#[derive(Clone, Copy, PartialEq, Eq, Structural, Debug)]
pub struct BordersProps {
    pub borders: Borders,
    pub variant: BorderType,
    pub color: Color,
}

impl BordersProps {
    /// The default border description: all sides, plain variant, neutral color.
    pub open spec fn spec_default() -> BordersProps {
        BordersProps {
            borders: Borders::spec_all(),
            variant: BorderType::Plain,
            color: Color::Reset,
        }
    }
}

impl Default for BordersProps {
    fn default() -> (b: BordersProps)
        ensures
            b == BordersProps::spec_default(),
    {
        BordersProps { borders: Borders::all(), variant: BorderType::Plain, color: Color::Reset }
    }
}

/// One styled run of text.
#[derive(Clone, PartialEq, Debug)]
pub struct TextSpan {
    pub content: String,
    pub fg: Color,
    pub bg: Color,
    pub modifiers: Modifiers,
}

/// The text parts of a component: an optional title and an optional ordered
/// list of styled spans.
#[derive(Clone, PartialEq, Debug)]
pub struct TextParts {
    pub title: Option<String>,
    pub spans: Option<Vec<TextSpan>>,
}

impl TextParts {
    /// Empty text parts: no title, no spans.
    pub open spec fn is_empty(self) -> bool {
        self.title is None && self.spans is None
    }
}

impl Default for TextParts {
    fn default() -> (t: TextParts)
        ensures
            t.is_empty(),
    {
        TextParts { title: None, spans: None }
    }
}

/// The kind of a text input widget.
#[derive(Clone, Copy, PartialEq, Eq, Structural, Debug)]
pub enum InputType {
    Text,
    Number,
    Password,
}

/// A primitive value carried inside a `PropPayload`.
///
/// Floating point values are carried as their IEEE-754 bit patterns
/// (`F32Bits`, `F64Bits`); the host converts with `to_bits` / `from_bits`.
#[derive(Clone, Debug)]
pub enum PropValue {
    Bool(bool),
    U8(u8),
    U16(u16),
    U32(u32),
    U64(u64),
    U128(u128),
    Usize(usize),
    I8(i8),
    I16(i16),
    I32(i32),
    I64(i64),
    I128(i128),
    Isize(isize),
    F64Bits(u64),
    F32Bits(u32),
    Str(String),
    Color(Color),
    InputType(InputType),
}

/// Structural equality on `PropValue`: same variant, equal contents
/// (text compares by its character sequence).
pub open spec fn value_eq_spec(a: PropValue, b: PropValue) -> bool {
    match (a, b) {
        (PropValue::Bool(x), PropValue::Bool(y)) => x == y,
        (PropValue::U8(x), PropValue::U8(y)) => x == y,
        (PropValue::U16(x), PropValue::U16(y)) => x == y,
        (PropValue::U32(x), PropValue::U32(y)) => x == y,
        (PropValue::U64(x), PropValue::U64(y)) => x == y,
        (PropValue::U128(x), PropValue::U128(y)) => x == y,
        (PropValue::Usize(x), PropValue::Usize(y)) => x == y,
        (PropValue::I8(x), PropValue::I8(y)) => x == y,
        (PropValue::I16(x), PropValue::I16(y)) => x == y,
        (PropValue::I32(x), PropValue::I32(y)) => x == y,
        (PropValue::I64(x), PropValue::I64(y)) => x == y,
        (PropValue::I128(x), PropValue::I128(y)) => x == y,
        (PropValue::Isize(x), PropValue::Isize(y)) => x == y,
        (PropValue::F64Bits(x), PropValue::F64Bits(y)) => x == y,
        (PropValue::F32Bits(x), PropValue::F32Bits(y)) => x == y,
        (PropValue::Str(x), PropValue::Str(y)) => x@ == y@,
        (PropValue::Color(x), PropValue::Color(y)) => x == y,
        (PropValue::InputType(x), PropValue::InputType(y)) => x == y,
        _ => false,
    }
}

impl PartialEq for PropValue {
    fn eq(&self, other: &PropValue) -> (r: bool) {
        match (self, other) {
            (PropValue::Bool(x), PropValue::Bool(y)) => *x == *y,
            (PropValue::U8(x), PropValue::U8(y)) => *x == *y,
            (PropValue::U16(x), PropValue::U16(y)) => *x == *y,
            (PropValue::U32(x), PropValue::U32(y)) => *x == *y,
            (PropValue::U64(x), PropValue::U64(y)) => *x == *y,
            (PropValue::U128(x), PropValue::U128(y)) => *x == *y,
            (PropValue::Usize(x), PropValue::Usize(y)) => *x == *y,
            (PropValue::I8(x), PropValue::I8(y)) => *x == *y,
            (PropValue::I16(x), PropValue::I16(y)) => *x == *y,
            (PropValue::I32(x), PropValue::I32(y)) => *x == *y,
            (PropValue::I64(x), PropValue::I64(y)) => *x == *y,
            (PropValue::I128(x), PropValue::I128(y)) => *x == *y,
            (PropValue::Isize(x), PropValue::Isize(y)) => *x == *y,
            (PropValue::F64Bits(x), PropValue::F64Bits(y)) => *x == *y,
            (PropValue::F32Bits(x), PropValue::F32Bits(y)) => *x == *y,
            (PropValue::Str(x), PropValue::Str(y)) => *x == *y,
            (PropValue::Color(x), PropValue::Color(y)) => *x == *y,
            (PropValue::InputType(x), PropValue::InputType(y)) => *x == *y,
            _ => false,
        }
    }
}

impl vstd::std_specs::cmp::PartialEqSpecImpl for PropValue {
    open spec fn obeys_eq_spec() -> bool {
        true
    }

    open spec fn eq_spec(&self, other: &PropValue) -> bool {
        value_eq_spec(*self, *other)
    }
}

/// Structural equality is reflexive on `PropValue`: a value always compares
/// equal to an independently constructed copy of itself.
pub proof fn lemma_value_eq_reflexive(a: PropValue)
    ensures
        value_eq_spec(a, a),
{
}

/// A payload of widget-specific extension data: a single value, a fixed-arity
/// tuple, an ordered list, a string-keyed association list, a nested ordered
/// sequence of payloads, or an explicit empty marker.
///
/// `Entries` is an insertion-ordered association list: well-formed values
/// (`payload_wf`) carry each key at most once, and equality compares entries
/// in order, entry by entry.
#[derive(Debug)]
pub enum PropPayload {
    One(PropValue),
    Tup2(PropValue, PropValue),
    Tup3(PropValue, PropValue, PropValue),
    Tup4(PropValue, PropValue, PropValue, PropValue),
    List(Vec<PropValue>),
    Entries(Vec<(String, PropValue)>),
    Linked(Vec<PropPayload>),
    Empty,
}

/// Well-formedness of a payload: every association list inside, at any
/// nesting depth, carries each key at most once.
pub open spec fn payload_wf(p: PropPayload) -> bool
    decreases p,
{
    match p {
        PropPayload::Entries(xs) => distinct_keys(xs@),
        PropPayload::Linked(xs) => forall|i: int|
            #![auto]
            0 <= i < xs.len() ==> payload_wf(xs[i]),
        _ => true,
    }
}

/// Structural equality on string-keyed entry lists: same length, and entry by
/// entry the keys and the values agree.
pub open spec fn entry_lists_eq_spec(xs: Seq<(String, PropValue)>, ys: Seq<(String, PropValue)>) -> bool {
    xs.len() == ys.len() && (forall|i: int|
        #![auto]
        0 <= i < xs.len() ==> xs[i].0@ == ys[i].0@ && value_eq_spec(xs[i].1, ys[i].1))
}

/// Structural equality on `PropPayload`: same variant, and the carried values
/// equal under `value_eq_spec`; nested sequences compare element by element.
pub open spec fn payload_eq_spec(a: PropPayload, b: PropPayload) -> bool
    decreases a,
{
    match (a, b) {
        (PropPayload::One(x), PropPayload::One(y)) => value_eq_spec(x, y),
        (PropPayload::Tup2(x0, x1), PropPayload::Tup2(y0, y1)) => {
            value_eq_spec(x0, y0) && value_eq_spec(x1, y1)
        },
        (PropPayload::Tup3(x0, x1, x2), PropPayload::Tup3(y0, y1, y2)) => {
            value_eq_spec(x0, y0) && value_eq_spec(x1, y1) && value_eq_spec(x2, y2)
        },
        (PropPayload::Tup4(x0, x1, x2, x3), PropPayload::Tup4(y0, y1, y2, y3)) => {
            value_eq_spec(x0, y0) && value_eq_spec(x1, y1) && value_eq_spec(x2, y2)
                && value_eq_spec(x3, y3)
        },
        (PropPayload::List(xs), PropPayload::List(ys)) => {
            xs.len() == ys.len() && (forall|i: int|
                #![auto]
                0 <= i < xs.len() ==> value_eq_spec(xs[i], ys[i]))
        },
        (PropPayload::Entries(xs), PropPayload::Entries(ys)) => entry_lists_eq_spec(xs@, ys@),
        (PropPayload::Linked(xs), PropPayload::Linked(ys)) => {
            xs.len() == ys.len() && (forall|i: int|
                #![auto]
                0 <= i < xs.len() ==> payload_eq_spec(xs[i], ys[i]))
        },
        (PropPayload::Empty, PropPayload::Empty) => true,
        _ => false,
    }
}

fn entry_lists_eq(xs: &Vec<(String, PropValue)>, ys: &Vec<(String, PropValue)>) -> (r: bool)
    ensures
        r == entry_lists_eq_spec(xs@, ys@),
{
    if xs.len() != ys.len() {
        return false;
    }
    let n = xs.len();
    let mut i: usize = 0;
    while i < n
        invariant
            n == xs.len() == ys.len(),
            0 <= i <= n,
            forall|j: int|
                #![auto]
                0 <= j < i ==> xs@[j].0@ == ys@[j].0@ && value_eq_spec(xs@[j].1, ys@[j].1),
        decreases n - i,
    {
        let p = &xs[i];
        let q = &ys[i];
        if !(p.0 == q.0) {
            return false;
        }
        if !(p.1 == q.1) {
            return false;
        }
        i = i + 1;
    }
    true
}

impl Clone for PropPayload {
    #[verifier::loop_isolation(false)]
    fn clone(&self) -> Self
        decreases *self,
    {
        match self {
            PropPayload::One(x) => PropPayload::One(x.clone()),
            PropPayload::Tup2(x0, x1) => PropPayload::Tup2(x0.clone(), x1.clone()),
            PropPayload::Tup3(x0, x1, x2) => PropPayload::Tup3(
                x0.clone(),
                x1.clone(),
                x2.clone(),
            ),
            PropPayload::Tup4(x0, x1, x2, x3) => PropPayload::Tup4(
                x0.clone(),
                x1.clone(),
                x2.clone(),
                x3.clone(),
            ),
            PropPayload::List(xs) => PropPayload::List(xs.clone()),
            PropPayload::Entries(xs) => PropPayload::Entries(xs.clone()),
            PropPayload::Linked(xs) => {
                let mut out: Vec<PropPayload> = Vec::new();
                let n = xs.len();
                let mut i: usize = 0;
                while i < n
                    invariant
                        n == xs.len(),
                        0 <= i <= n,
                    decreases n - i,
                {
                    let element = &xs[i];
                    proof {
                        assert(decreases_to!(*self => *xs));
                        assert(decreases_to!(*xs => xs@[i as int]));
                    }
                    out.push(element.clone());
                    i = i + 1;
                }
                PropPayload::Linked(out)
            },
            PropPayload::Empty => PropPayload::Empty,
        }
    }
}

impl PartialEq for PropPayload {
    #[verifier::loop_isolation(false)]
    fn eq(&self, other: &PropPayload) -> (r: bool)
        decreases *self,
    {
        match (self, other) {
            (PropPayload::One(x), PropPayload::One(y)) => x == y,
            (PropPayload::Tup2(x0, x1), PropPayload::Tup2(y0, y1)) => x0 == y0 && x1 == y1,
            (PropPayload::Tup3(x0, x1, x2), PropPayload::Tup3(y0, y1, y2)) => {
                x0 == y0 && x1 == y1 && x2 == y2
            },
            (PropPayload::Tup4(x0, x1, x2, x3), PropPayload::Tup4(y0, y1, y2, y3)) => {
                x0 == y0 && x1 == y1 && x2 == y2 && x3 == y3
            },
            (PropPayload::List(xs), PropPayload::List(ys)) => *xs == *ys,
            (PropPayload::Entries(xs), PropPayload::Entries(ys)) => entry_lists_eq(xs, ys),
            (PropPayload::Linked(xs), PropPayload::Linked(ys)) => {
                if xs.len() != ys.len() {
                    return false;
                }
                let n = xs.len();
                let mut i: usize = 0;
                let mut all_eq = true;
                while i < n
                    invariant
                        n == xs.len() == ys.len(),
                        0 <= i <= n,
                        all_eq == (forall|j: int|
                            #![auto]
                            0 <= j < i ==> payload_eq_spec(xs@[j], ys@[j])),
                    decreases n - i,
                {
                    let element = &xs[i];
                    proof {
                        assert(decreases_to!(*self => *xs));
                        assert(decreases_to!(*xs => xs@[i as int]));
                    }
                    if !(*element == ys[i]) {
                        all_eq = false;
                    }
                    i = i + 1;
                }
                all_eq
            },
            (PropPayload::Empty, PropPayload::Empty) => true,
            _ => false,
        }
    }
}

impl vstd::std_specs::cmp::PartialEqSpecImpl for PropPayload {
    open spec fn obeys_eq_spec() -> bool {
        true
    }

    open spec fn eq_spec(&self, other: &PropPayload) -> bool {
        payload_eq_spec(*self, *other)
    }
}

/// The immutable configuration snapshot of a component. A value is produced
/// by the property builder at mount time and replaced wholesale on update,
/// never mutated in place from outside the owning component.
#[derive(Clone, PartialEq, Debug)]
pub struct Props {
    pub visible: bool,
    pub foreground: Color,
    pub background: Color,
    pub borders: BordersProps,
    pub modifiers: Modifiers,
    pub palette: Vec<(String, Color)>,
    pub texts: TextParts,
    pub own: Vec<(String, PropPayload)>,
}

impl Props {
    /// Well-formedness: the palette and the extension map carry each key at
    /// most once, and every stored payload is itself well-formed.
    pub open spec fn wf(self) -> bool {
        &&& distinct_keys(self.palette@)
        &&& distinct_keys(self.own@)
        &&& forall|i: int| 0 <= i < self.own@.len() ==> payload_wf(#[trigger] self.own@[i].1)
    }

    /// The default configuration: visible, neutral colors, all borders in the
    /// plain variant and neutral color, no modifiers, empty palette, empty
    /// text parts, empty extension map.
    pub open spec fn is_default(self) -> bool {
        &&& self.visible == true
        &&& self.foreground == Color::Reset
        &&& self.background == Color::Reset
        &&& self.borders == BordersProps::spec_default()
        &&& self.modifiers == Modifiers::spec_empty()
        &&& self.palette@.len() == 0
        &&& self.texts.is_empty()
        &&& self.own@.len() == 0
    }
}

impl Default for Props {
    fn default() -> (p: Props)
        ensures
            p.is_default(),
            p.wf(),
    {
        Props {
            visible: true,
            foreground: Color::Reset,
            background: Color::Reset,
            borders: BordersProps::default(),
            modifiers: Modifiers::empty(),
            palette: Vec::new(),
            texts: TextParts::default(),
            own: Vec::new(),
        }
    }
}

/// Structural equality is reflexive on `PropPayload`, down through nested
/// sequences: a payload always compares equal to an independently constructed
/// copy of itself.
pub proof fn lemma_payload_eq_reflexive(a: PropPayload)
    ensures
        payload_eq_spec(a, a),
    decreases a,
{
    match a {
        PropPayload::Linked(xs) => {
            assert forall|i: int| #![auto] 0 <= i < xs.len() implies payload_eq_spec(
                xs[i],
                xs[i],
            ) by {
                lemma_payload_eq_reflexive(xs[i]);
            }
        },
        _ => {},
    }
}


/// The spans of two text parts agree: both absent, or both present with the
/// same spans in the same order.
pub open spec fn spans_like(a: Option<Vec<TextSpan>>, b: Option<Vec<TextSpan>>) -> bool {
    match (a, b) {
        (Option::Some(x), Option::Some(y)) => x@ == y@,
        (Option::None, Option::None) => true,
        _ => false,
    }
}

/// Two extension maps agree: same length, and entry by entry the keys are
/// equal and the payloads structurally equal.
pub open spec fn own_entries_like(a: Seq<(String, PropPayload)>, b: Seq<(String, PropPayload)>) -> bool {
    a.len() == b.len() && (forall|i: int|
        #![auto]
        0 <= i < a.len() ==> a[i].0 == b[i].0 && payload_eq_spec(a[i].1, b[i].1))
}

/// Two configurations agree in every observable respect: all plain fields
/// equal, the palette and text parts equal, and the extension maps
/// structurally equal. This is the equivalence a configuration copy
/// establishes; it is stated over views because two vectors with equal
/// contents need not be one value.
pub open spec fn props_like(a: Props, b: Props) -> bool {
    &&& a.visible == b.visible
    &&& a.foreground == b.foreground
    &&& a.background == b.background
    &&& a.borders == b.borders
    &&& a.modifiers == b.modifiers
    &&& a.palette@ == b.palette@
    &&& a.texts.title == b.texts.title
    &&& spans_like(a.texts.spans, b.texts.spans)
    &&& own_entries_like(a.own@, b.own@)
}

/// `props_like` is reflexive: a configuration agrees with itself.
pub proof fn lemma_props_like_reflexive(p: Props)
    ensures
        props_like(p, p),
{
    assert forall|i: int| #![auto] 0 <= i < p.own@.len() implies p.own@[i].0 == p.own@[i].0
        && payload_eq_spec(p.own@[i].1, p.own@[i].1) by {
        lemma_payload_eq_reflexive(p.own@[i].1);
    }
}

/// An exact copy of a primitive value.
fn value_dup(v: &PropValue) -> (r: PropValue)
    ensures
        r == *v,
{
    match v {
        PropValue::Bool(x) => PropValue::Bool(*x),
        PropValue::U8(x) => PropValue::U8(*x),
        PropValue::U16(x) => PropValue::U16(*x),
        PropValue::U32(x) => PropValue::U32(*x),
        PropValue::U64(x) => PropValue::U64(*x),
        PropValue::U128(x) => PropValue::U128(*x),
        PropValue::Usize(x) => PropValue::Usize(*x),
        PropValue::I8(x) => PropValue::I8(*x),
        PropValue::I16(x) => PropValue::I16(*x),
        PropValue::I32(x) => PropValue::I32(*x),
        PropValue::I64(x) => PropValue::I64(*x),
        PropValue::I128(x) => PropValue::I128(*x),
        PropValue::Isize(x) => PropValue::Isize(*x),
        PropValue::F64Bits(x) => PropValue::F64Bits(*x),
        PropValue::F32Bits(x) => PropValue::F32Bits(*x),
        PropValue::Str(x) => PropValue::Str(x.clone()),
        PropValue::Color(x) => PropValue::Color(*x),
        PropValue::InputType(x) => PropValue::InputType(*x),
    }
}

/// A structurally equal copy of a payload.
#[verifier::loop_isolation(false)]
fn payload_dup(p: &PropPayload) -> (r: PropPayload)
    ensures
        payload_eq_spec(r, *p),
    decreases *p,
{
    match p {
        PropPayload::One(x) => PropPayload::One(value_dup(x)),
        PropPayload::Tup2(x0, x1) => PropPayload::Tup2(value_dup(x0), value_dup(x1)),
        PropPayload::Tup3(x0, x1, x2) => PropPayload::Tup3(
            value_dup(x0),
            value_dup(x1),
            value_dup(x2),
        ),
        PropPayload::Tup4(x0, x1, x2, x3) => PropPayload::Tup4(
            value_dup(x0),
            value_dup(x1),
            value_dup(x2),
            value_dup(x3),
        ),
        PropPayload::List(xs) => {
            let mut out: Vec<PropValue> = Vec::new();
            let n = xs.len();
            let mut i: usize = 0;
            while i < n
                invariant
                    n == xs.len(),
                    0 <= i <= n,
                    out@.len() == i,
                    forall|j: int| #![auto] 0 <= j < i ==> out@[j] == xs@[j],
                decreases n - i,
            {
                out.push(value_dup(&xs[i]));
                i = i + 1;
            }
            PropPayload::List(out)
        },
        PropPayload::Entries(xs) => {
            let mut out: Vec<(String, PropValue)> = Vec::new();
            let n = xs.len();
            let mut i: usize = 0;
            while i < n
                invariant
                    n == xs.len(),
                    0 <= i <= n,
                    out@.len() == i,
                    forall|j: int|
                        #![auto]
                        0 <= j < i ==> out@[j].0@ == xs@[j].0@ && out@[j].1 == xs@[j].1,
                decreases n - i,
            {
                let entry = &xs[i];
                out.push((entry.0.clone(), value_dup(&entry.1)));
                i = i + 1;
            }
            PropPayload::Entries(out)
        },
        PropPayload::Linked(xs) => {
            let mut out: Vec<PropPayload> = Vec::new();
            let n = xs.len();
            let mut i: usize = 0;
            while i < n
                invariant
                    n == xs.len(),
                    0 <= i <= n,
                    out@.len() == i,
                    forall|j: int| #![auto] 0 <= j < i ==> payload_eq_spec(out@[j], xs@[j]),
                decreases n - i,
            {
                let element = &xs[i];
                proof {
                    assert(decreases_to!(*p => *xs));
                    assert(decreases_to!(*xs => xs@[i as int]));
                }
                out.push(payload_dup(element));
                i = i + 1;
            }
            PropPayload::Linked(out)
        },
        PropPayload::Empty => PropPayload::Empty,
    }
}

/// An exact copy of a styled span.
pub(crate) fn span_dup(s: &TextSpan) -> (r: TextSpan)
    ensures
        r == *s,
{
    TextSpan { content: s.content.clone(), fg: s.fg, bg: s.bg, modifiers: s.modifiers }
}

/// A copy of a span list with the same spans in the same order.
pub(crate) fn spans_dup(v: &Vec<TextSpan>) -> (r: Vec<TextSpan>)
    ensures
        r@ == v@,
{
    let mut out: Vec<TextSpan> = Vec::new();
    let n = v.len();
    let mut i: usize = 0;
    while i < n
        invariant
            n == v.len(),
            0 <= i <= n,
            out@.len() == i,
            forall|j: int| #![auto] 0 <= j < i ==> out@[j] == v@[j],
        decreases n - i,
    {
        out.push(span_dup(&v[i]));
        i = i + 1;
    }
    proof {
        assert(out@ =~= v@);
    }
    out
}

/// A copy of a configuration that agrees with the original in every
/// observable respect.
pub fn props_dup(p: &Props) -> (r: Props)
    ensures
        props_like(r, *p),
{
    let mut palette: Vec<(String, Color)> = Vec::new();
    let n = p.palette.len();
    let mut i: usize = 0;
    while i < n
        invariant
            n == p.palette.len(),
            0 <= i <= n,
            palette@.len() == i,
            forall|j: int| #![auto] 0 <= j < i ==> palette@[j] == p.palette@[j],
        decreases n - i,
    {
        let entry = &p.palette[i];
        palette.push((entry.0.clone(), entry.1));
        i = i + 1;
    }
    proof {
        assert(palette@ =~= p.palette@);
    }
    let title = match &p.texts.title {
        Some(t) => Some(t.clone()),
        None => None,
    };
    let spans = match &p.texts.spans {
        Some(sp) => Some(spans_dup(sp)),
        None => None,
    };
    let mut own: Vec<(String, PropPayload)> = Vec::new();
    let m = p.own.len();
    let mut k: usize = 0;
    while k < m
        invariant
            m == p.own.len(),
            0 <= k <= m,
            own@.len() == k,
            forall|j: int|
                #![auto]
                0 <= j < k ==> own@[j].0 == p.own@[j].0 && payload_eq_spec(own@[j].1, p.own@[j].1),
        decreases m - k,
    {
        let entry = &p.own[k];
        own.push((entry.0.clone(), payload_dup(&entry.1)));
        k = k + 1;
    }
    Props {
        visible: p.visible,
        foreground: p.foreground,
        background: p.background,
        borders: p.borders,
        modifiers: p.modifiers,
        palette,
        texts: TextParts { title, spans },
        own,
    }
}

} // verus!
