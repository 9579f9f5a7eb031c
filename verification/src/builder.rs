//! The property builder: starts from the default configuration (or from an
//! existing one), sets one field per call, and yields an immutable `Props`.
//! Every method is total; `build` is infallible.

use crate::keylist::{has_key, key_idx, key_set, val_of};
use crate::props::{
    payload_wf, BorderType, Borders, BordersProps, Color, Modifiers, PropPayload, Props, TextParts,
};
use vstd::prelude::*;

verus! {

/// Builds a `Props` value one field at a time. Each configuration method
/// consumes the builder and returns it with exactly one field changed.
pub struct PropsBuilder {
    pub props: Props,
}

impl Default for PropsBuilder {
    fn default() -> (b: PropsBuilder)
        ensures
            b.props.is_default(),
            b.props.wf(),
    {
        PropsBuilder { props: Props::default() }
    }
}

impl PropsBuilder {
    /// Seeds a builder from an existing configuration, so that an update can
    /// start from the current state and override a subset of fields.
    pub fn from(props: Props) -> (b: PropsBuilder)
        ensures
            b.props == props,
    {
        PropsBuilder { props }
    }

    /// Yields the built configuration. Infallible.
    pub fn build(self) -> (p: Props)
        ensures
            p == self.props,
    {
        self.props
    }

    /// Marks the component as hidden.
    pub fn hidden(self) -> (b: PropsBuilder)
        ensures
            b.props == (Props { visible: false, ..self.props }),
    {
        let mut p = self.props;
        p.visible = false;
        PropsBuilder { props: p }
    }

    /// Marks the component as visible.
    pub fn visible(self) -> (b: PropsBuilder)
        ensures
            b.props == (Props { visible: true, ..self.props }),
    {
        let mut p = self.props;
        p.visible = true;
        PropsBuilder { props: p }
    }

    /// Sets the foreground color.
    pub fn with_foreground(self, color: Color) -> (b: PropsBuilder)
        ensures
            b.props == (Props { foreground: color, ..self.props }),
    {
        let mut p = self.props;
        p.foreground = color;
        PropsBuilder { props: p }
    }

    /// Sets the background color.
    pub fn with_background(self, color: Color) -> (b: PropsBuilder)
        ensures
            b.props == (Props { background: color, ..self.props }),
    {
        let mut p = self.props;
        p.background = color;
        PropsBuilder { props: p }
    }

    /// Sets the border sides, variant and color.
    pub fn with_borders(self, borders: Borders, variant: BorderType, color: Color) -> (b:
        PropsBuilder)
        ensures
            b.props == (Props {
                borders: BordersProps { borders, variant, color },
                ..self.props
            }),
    {
        let mut p = self.props;
        p.borders = BordersProps { borders, variant, color };
        PropsBuilder { props: p }
    }

    /// Replaces the whole modifier set.
    pub fn with_modifiers(self, modifiers: Modifiers) -> (b: PropsBuilder)
        ensures
            b.props == (Props { modifiers, ..self.props }),
    {
        let mut p = self.props;
        p.modifiers = modifiers;
        PropsBuilder { props: p }
    }

    /// Raises the bold modifier flag.
    pub fn bold(self) -> (b: PropsBuilder)
        ensures
            b.props == (Props {
                modifiers: Modifiers { bold: true, ..self.props.modifiers },
                ..self.props
            }),
    {
        let mut p = self.props;
        p.modifiers.bold = true;
        PropsBuilder { props: p }
    }

    /// Raises the italic modifier flag.
    pub fn italic(self) -> (b: PropsBuilder)
        ensures
            b.props == (Props {
                modifiers: Modifiers { italic: true, ..self.props.modifiers },
                ..self.props
            }),
    {
        let mut p = self.props;
        p.modifiers.italic = true;
        PropsBuilder { props: p }
    }

    /// Raises the underlined modifier flag.
    pub fn underlined(self) -> (b: PropsBuilder)
        ensures
            b.props == (Props {
                modifiers: Modifiers { underlined: true, ..self.props.modifiers },
                ..self.props
            }),
    {
        let mut p = self.props;
        p.modifiers.underlined = true;
        PropsBuilder { props: p }
    }

    /// Replaces the text parts wholesale.
    pub fn with_texts(self, texts: TextParts) -> (b: PropsBuilder)
        ensures
            b.props == (Props { texts, ..self.props }),
    {
        let mut p = self.props;
        p.texts = texts;
        PropsBuilder { props: p }
    }

    /// Stores an extra color in the palette under `key`, replacing a previous
    /// binding of the same key.
    pub fn with_palette(self, key: String, color: Color) -> (b: PropsBuilder)
        requires
            self.props.wf(),
        ensures
            b.props.wf(),
            has_key(b.props.palette@, key@),
            val_of(b.props.palette@, key@) == color,
            forall|k: Seq<char>|
                k != key@ ==> #[trigger] has_key(b.props.palette@, k) == has_key(
                    self.props.palette@,
                    k,
                ),
            forall|k: Seq<char>|
                k != key@ && has_key(self.props.palette@, k) ==> #[trigger] val_of(
                    b.props.palette@,
                    k,
                ) == val_of(self.props.palette@, k),
            b.props == (Props { palette: b.props.palette, ..self.props }),
    {
        let mut p = self.props;
        key_set(&mut p.palette, key, color);
        PropsBuilder { props: p }
    }

    /// Stores a widget-specific payload in the extension map under `key`,
    /// replacing a previous binding of the same key.
    pub fn with_own(self, key: String, payload: PropPayload) -> (b: PropsBuilder)
        requires
            self.props.wf(),
            payload_wf(payload),
        ensures
            b.props.wf(),
            has_key(b.props.own@, key@),
            val_of(b.props.own@, key@) == payload,
            forall|k: Seq<char>|
                k != key@ ==> #[trigger] has_key(b.props.own@, k) == has_key(self.props.own@, k),
            forall|k: Seq<char>|
                k != key@ && has_key(self.props.own@, k) ==> #[trigger] val_of(b.props.own@, k)
                    == val_of(self.props.own@, k),
            b.props == (Props { own: b.props.own, ..self.props }),
    {
        let mut p = self.props;
        let ghost oldown = p.own@;
        key_set(&mut p.own, key, payload);
        proof {
            assert forall|i: int| 0 <= i < p.own@.len() implies payload_wf(
                #[trigger] p.own@[i].1,
            ) by {
                if has_key(oldown, key@) {
                    let j = key_idx(oldown, key@);
                    assert(p.own@ == oldown.update(j, (key, payload)));
                    if i != j {
                        assert(p.own@[i] == oldown[i]);
                    }
                } else {
                    assert(p.own@ == oldown.push((key, payload)));
                    if i < oldown.len() {
                        assert(p.own@[i] == oldown[i]);
                    }
                }
            }
        }
        PropsBuilder { props: p }
    }
}

/// Round-trip law: a builder seeded from a previously built configuration and
/// built again with no intervening configuration call yields that same
/// configuration. The hypotheses are exactly what `PropsBuilder::from` and
/// `PropsBuilder::build` ensure.
pub proof fn lemma_builder_round_trip(props: Props, b: PropsBuilder, rebuilt: Props)
    requires
        b.props == props,
        rebuilt == b.props,
    ensures
        rebuilt == props,
{
}

} // verus!
