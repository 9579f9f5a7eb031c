//! The view: the owning registry of mounted components plus the focus state.
//! It routes input events to the focused component and lets the application
//! read or replace any component's configuration by id.

use crate::events::Event;
use crate::keylist::{distinct_keys, has_key, key_find, key_idx, val_of};
use crate::msg::Msg;
use crate::props::{props_like, BordersProps, Color, Props, TextSpan};
use vstd::prelude::*;
use vstd::view::View as _;

verus! {

/// A rectangular drawing area, in terminal cells.
#[derive(Clone, Copy, PartialEq, Eq, Structural, Debug)]
pub struct Rect {
    pub x: u16,
    pub y: u16,
    pub width: u16,
    pub height: u16,
}

/// What a component asks the rendering backend to paint: the drawable
/// description computed from its configuration and state. The backend turns
/// this into cell updates; the core never touches the terminal itself.
#[derive(Clone, PartialEq, Debug)]
pub struct Render {
    pub area: Rect,
    pub foreground: Color,
    pub background: Color,
    pub borders: BordersProps,
    pub title: Option<String>,
    pub lines: Vec<TextSpan>,
}

/// The uniform capability set every widget implements. The view stores
/// components only through this interface; concrete widgets live outside the
/// core and are free to keep whatever private state they need.
pub trait Component {
    /// The configuration the component currently holds: the model that the
    /// contracts of `get_props` and `update` speak of.
    spec fn props_model(&self) -> Props;

    /// Consumes one input event. May mutate only this component's own state
    /// and configuration. Returns `None` when the event has no
    /// application-visible effect, `Some` when an externally meaningful
    /// transition occurred.
    fn on(&mut self, ev: Event) -> Option<Msg>;

    /// Returns the current configuration snapshot: a copy that agrees with
    /// the held configuration in every observable respect.
    fn get_props(&self) -> (r: Props)
        ensures
            props_like(r, self.props_model());

    /// Replaces the configuration wholesale; may report the effect. The held
    /// configuration afterwards agrees with `props`.
    fn update(&mut self, props: Props) -> (r: Option<Msg>)
        ensures
            props_like(final(self).props_model(), props);

    /// Computes the drawable description for `area`, without mutating any
    /// state; safe to call whether or not the component is focused. May
    /// return `None` (nothing to paint), in particular on a degenerate area.
    fn render(&self, area: Rect) -> Option<Render>;
}

/// The owning registry of mounted components, keyed by string id, plus the
/// single optional focused id.
///
/// Invariant (`wf`): ids are distinct, and the focused id, if present, always
/// names a currently mounted component.
pub struct View {
    components: Vec<(String, Box<dyn Component>)>,
    focus: Option<String>,
}

impl View {
    /// The mounted entries, in mount order.
    pub closed spec fn entries(self) -> Seq<(String, Box<dyn Component>)> {
        self.components@
    }

    /// Whether a component is mounted under `id`.
    pub open spec fn mounted(self, id: Seq<char>) -> bool {
        has_key(self.entries(), id)
    }

    /// The component mounted under `id`.
    pub open spec fn comp_of(self, id: Seq<char>) -> Box<dyn Component> {
        val_of(self.entries(), id)
    }

    /// The configuration model of the component mounted under `id`.
    pub open spec fn model_of(self, id: Seq<char>) -> Props {
        val_of(self.entries(), id).props_model()
    }

    /// The focused id, if any.
    pub closed spec fn focus_id(self) -> Option<Seq<char>> {
        match self.focus {
            Some(f) => Some(f@),
            None => None,
        }
    }

    /// Well-formedness: distinct ids, and focus only on a mounted component.
    pub open spec fn wf(self) -> bool {
        &&& distinct_keys(self.entries())
        &&& match self.focus_id() {
            Some(f) => self.mounted(f),
            None => true,
        }
    }

    /// A fresh view: nothing mounted, nothing focused.
    pub fn init() -> (v: View)
        ensures
            v.wf(),
            v.entries().len() == 0,
            v.focus_id() is None,
    {
        View { components: Vec::new(), focus: None }
    }

    /// Registers `component` under `id`. If `id` already names a component,
    /// the previous one is replaced and its state becomes unreachable; this
    /// is a deliberate overwrite, not an error. Focus is untouched.
    pub fn mount(&mut self, id: &str, component: Box<dyn Component>)
        requires
            old(self).wf(),
        ensures
            final(self).wf(),
            final(self).mounted(id@),
            val_of(final(self).entries(), id@) == component,
            forall|k: Seq<char>|
                k != id@ ==> #[trigger] final(self).mounted(k) == old(self).mounted(k),
            forall|k: Seq<char>|
                k != id@ && old(self).mounted(k) ==> #[trigger] final(self).comp_of(k) == old(
                    self,
                ).comp_of(k),
            final(self).focus_id() == old(self).focus_id(),
            old(self).mounted(id@) ==> final(self).entries().len() == old(self).entries().len(),
            !old(self).mounted(id@) ==> final(self).entries().len() == old(self).entries().len()
                + 1,
            final(self).model_of(id@) == component.props_model(),
            forall|k: Seq<char>|
                k != id@ && old(self).mounted(k) ==> #[trigger] final(self).model_of(k) == old(
                    self,
                ).model_of(k),
    {
        let owned = id.to_owned();
        let found = key_find(&self.components, &owned);
        let pair = (owned, component);
        match found {
            Some(i) => {
                let ghost olds = self.components@;
                self.components[i] = pair;
                proof {
                    assert(self.components@ == olds.update(i as int, pair));
                    assert(self.components@[i as int] == pair);
                    assert(forall|j: int|
                        0 <= j < olds.len() && j != i ==> self.components@[j] == olds[j]);
                    lemma_registry_update(olds, self.components@, i as int, id@);
                    assert(val_of(self.entries(), id@) == pair.1);
                    assert(self.model_of(id@) == component.props_model());
                }
            },
            None => {
                let ghost olds = self.components@;
                self.components.push(pair);
                proof {
                    assert(self.components@ == olds.push(pair));
                    lemma_registry_push(olds, self.components@, pair, id@);
                    assert(val_of(self.entries(), id@) == pair.1);
                    assert(self.model_of(id@) == component.props_model());
                }
            },
        }
        proof {
            assert forall|k: Seq<char>|
                k != id@ && old(self).mounted(k) implies #[trigger] self.model_of(k) == old(
                self,
            ).model_of(k) by {
                assert(self.comp_of(k) == old(self).comp_of(k));
            }
        }
    }

    /// Removes the component under `id`; removing an unknown id is a no-op.
    /// If `id` was focused, focus becomes unset.
    pub fn unmount(&mut self, id: &str)
        requires
            old(self).wf(),
        ensures
            final(self).wf(),
            !final(self).mounted(id@),
            forall|k: Seq<char>|
                k != id@ ==> #[trigger] final(self).mounted(k) == old(self).mounted(k),
            forall|k: Seq<char>|
                k != id@ && old(self).mounted(k) ==> #[trigger] final(self).comp_of(k) == old(
                    self,
                ).comp_of(k),
            final(self).focus_id() == (if old(self).focus_id() == Some(id@) {
                Option::<Seq<char>>::None
            } else {
                old(self).focus_id()
            }),
            forall|k: Seq<char>|
                k != id@ && old(self).mounted(k) ==> #[trigger] final(self).model_of(k) == old(
                    self,
                ).model_of(k),
    {
        let owned = id.to_owned();
        let clear = match &self.focus {
            Some(f) => *f == owned,
            None => false,
        };
        if clear {
            self.focus = None;
        }
        let found = key_find(&self.components, &owned);
        match found {
            Some(i) => {
                let ghost olds = self.components@;
                self.components.remove(i);
                proof {
                    assert(self.components@ == olds.remove(i as int));
                    lemma_registry_remove(olds, self.components@, i as int, id@);
                }
            },
            None => {},
        }
        proof {
            assert forall|k: Seq<char>|
                k != id@ && old(self).mounted(k) implies #[trigger] self.model_of(k) == old(
                self,
            ).model_of(k) by {
                assert(self.comp_of(k) == old(self).comp_of(k));
            }
        }
    }

    /// Sets focus to `id` if `id` is mounted; otherwise leaves the previous
    /// focus unchanged (the request is rejected silently rather than
    /// corrupting the focus invariant).
    pub fn active(&mut self, id: &str)
        requires
            old(self).wf(),
        ensures
            final(self).wf(),
            final(self).entries() == old(self).entries(),
            old(self).mounted(id@) ==> final(self).focus_id() == Some(id@),
            !old(self).mounted(id@) ==> *final(self) == *old(self),
    {
        let owned = id.to_owned();
        let found = key_find(&self.components, &owned);
        match found {
            Some(i) => {
                proof {
                    assert(has_key(self.components@, owned@));
                }
                self.focus = Some(owned);
            },
            None => {},
        }
    }

    /// Reads the configuration of the component under `id`; `None` when `id`
    /// is not mounted. The returned snapshot agrees with the configuration
    /// that the mounted component holds.
    pub fn get_props(&self, id: &str) -> (r: Option<Props>)
        requires
            self.wf(),
        ensures
            r is Some <==> self.mounted(id@),
            r matches Some(p) ==> props_like(p, self.model_of(id@)),
    {
        let owned = id.to_owned();
        let found = key_find(&self.components, &owned);
        match found {
            Some(i) => {
                proof {
                    assert(has_key(self.components@, owned@));
                    lemma_key_idx_unique_dyn(self.components@, owned@, i as int);
                    assert(val_of(self.entries(), id@) == self.components@[i as int].1);
                }
                let snapshot = self.components[i].1.get_props();
                proof {
                    assert(props_like(snapshot, self.model_of(id@)));
                }
                Some(snapshot)
            },
            None => None,
        }
    }

    /// Routes one raw event: with no focus, returns `None` without side
    /// effects; otherwise forwards the event to the focused component and
    /// tags its answer, if any, with the focused id. Only the focused
    /// component can change; ids and focus are untouched.
    pub fn on(&mut self, ev: Event) -> (r: Option<(String, Msg)>)
        requires
            old(self).wf(),
        ensures
            final(self).wf(),
            old(self).focus_id() is None ==> *final(self) == *old(self) && r is None,
            final(self).focus_id() == old(self).focus_id(),
            forall|k: Seq<char>| #[trigger]
                final(self).mounted(k) == old(self).mounted(k),
            forall|k: Seq<char>|
                old(self).focus_id() != Some(k) && old(self).mounted(k)
                    ==> #[trigger] final(self).comp_of(k) == old(self).comp_of(k),
            forall|k: Seq<char>|
                old(self).focus_id() != Some(k) && old(self).mounted(k)
                    ==> #[trigger] final(self).model_of(k) == old(self).model_of(k),
            r matches Some(p) ==> old(self).focus_id() == Some(p.0@),
    {
        let fid = match &self.focus {
            Some(f) => f.clone(),
            None => {
                return None;
            },
        };
        let found = key_find(&self.components, &fid);
        let i = match found {
            Some(i) => i,
            None => {
                proof {
                    assert(false);
                }
                return None;
            },
        };
        let ghost olds = self.components@;
        let mut pair = self.components.remove(i);
        let msg = pair.1.on(ev);
        self.components.insert(i, pair);
        proof {
            assert(self.components@ =~= olds.update(i as int, pair));
            lemma_registry_update(olds, self.components@, i as int, fid@);
            assert forall|k: Seq<char>|
                old(self).focus_id() != Some(k) && old(self).mounted(k) implies #[trigger] self
                .model_of(k) == old(self).model_of(k) by {
                assert(val_of(self.entries(), k) == val_of(old(self).entries(), k));
            }
        }
        match msg {
            Some(m) => Some((fid, m)),
            None => None,
        }
    }

    /// Replaces the configuration of the component under `id` from outside
    /// the focus-routed path, tagging the component's answer, if any, with
    /// `id`. `None` without side effects when `id` is not mounted.
    pub fn update(&mut self, id: &str, props: Props) -> (r: Option<(String, Msg)>)
        requires
            old(self).wf(),
        ensures
            final(self).wf(),
            final(self).focus_id() == old(self).focus_id(),
            forall|k: Seq<char>| #[trigger]
                final(self).mounted(k) == old(self).mounted(k),
            !old(self).mounted(id@) ==> *final(self) == *old(self) && r is None,
            forall|k: Seq<char>|
                k != id@ && old(self).mounted(k) ==> #[trigger] final(self).comp_of(k) == old(
                    self,
                ).comp_of(k),
            forall|k: Seq<char>|
                k != id@ && old(self).mounted(k) ==> #[trigger] final(self).model_of(k) == old(
                    self,
                ).model_of(k),
            old(self).mounted(id@) ==> props_like(final(self).model_of(id@), props),
            r matches Some(p) ==> p.0@ == id@ && old(self).mounted(id@),
    {
        let owned = id.to_owned();
        let found = key_find(&self.components, &owned);
        let i = match found {
            Some(i) => i,
            None => {
                return None;
            },
        };
        proof {
            assert(has_key(self.components@, owned@));
        }
        let ghost olds = self.components@;
        let mut pair = self.components.remove(i);
        let msg = pair.1.update(props);
        self.components.insert(i, pair);
        proof {
            assert(self.components@ =~= olds.update(i as int, pair));
            lemma_registry_update(olds, self.components@, i as int, owned@);
            assert(val_of(self.entries(), id@) == pair.1);
            assert(props_like(self.model_of(id@), props));
            assert forall|k: Seq<char>|
                k != id@ && old(self).mounted(k) implies #[trigger] self.model_of(k) == old(
                self,
            ).model_of(k) by {
                assert(val_of(self.entries(), k) == val_of(old(self).entries(), k));
            }
        }
        match msg {
            Some(m) => Some((owned, m)),
            None => None,
        }
    }

    /// Computes the drawable description of the component under `id`;
    /// `None` when `id` is not mounted. Draws exactly one component.
    pub fn render(&self, id: &str, area: Rect) -> (r: Option<Render>)
        requires
            self.wf(),
        ensures
            !self.mounted(id@) ==> r is None,
    {
        let owned = id.to_owned();
        let found = key_find(&self.components, &owned);
        match found {
            Some(i) => {
                proof {
                    assert(has_key(self.components@, owned@));
                }
                self.components[i].1.render(area)
            },
            None => None,
        }
    }
}

/// Replacing the component part of the entry at a key's index keeps the key
/// set, the distinctness of keys, and every other entry.
proof fn lemma_registry_update(
    olds: Seq<(String, Box<dyn Component>)>,
    news: Seq<(String, Box<dyn Component>)>,
    i: int,
    id: Seq<char>,
)
    requires
        distinct_keys(olds),
        0 <= i < olds.len(),
        olds[i].0@ == id,
        news.len() == olds.len(),
        news[i].0@ == olds[i].0@,
        forall|j: int| 0 <= j < olds.len() && j != i ==> news[j] == olds[j],
    ensures
        distinct_keys(news),
        forall|k: Seq<char>| #[trigger] has_key(news, k) == has_key(olds, k),
        forall|k: Seq<char>|
            k != id && has_key(olds, k) ==> #[trigger] val_of(news, k) == val_of(olds, k),
        has_key(news, id),
        val_of(news, id) == news[i].1,
{
    assert(forall|j: int| 0 <= j < news.len() ==> news[j].0@ == olds[j].0@);
    assert forall|k: Seq<char>| #[trigger] has_key(news, k) == has_key(olds, k) by {
        if has_key(olds, k) {
            let w = key_idx(olds, k);
            assert(0 <= w < olds.len() && olds[w].0@ == k);
            assert(news[w].0@ == k);
        }
        if has_key(news, k) {
            let w = key_idx(news, k);
            assert(0 <= w < news.len() && news[w].0@ == k);
            assert(olds[w].0@ == k);
        }
    }
    assert forall|k: Seq<char>|
        k != id && has_key(olds, k) implies #[trigger] val_of(news, k) == val_of(olds, k) by {
        let w = key_idx(olds, k);
        lemma_key_idx_unique_dyn(olds, k, w);
        assert(olds[w].0@ == k);
        assert(w != i);
        assert(news[w] == olds[w]);
        lemma_key_idx_unique_dyn(news, k, w);
    }
    lemma_key_idx_unique_dyn(news, id, i);
}

/// Appending an entry with a fresh key keeps distinctness and every other
/// entry, and stores the new value under the new key.
proof fn lemma_registry_push(
    olds: Seq<(String, Box<dyn Component>)>,
    news: Seq<(String, Box<dyn Component>)>,
    pair: (String, Box<dyn Component>),
    id: Seq<char>,
)
    requires
        distinct_keys(olds),
        !has_key(olds, id),
        pair.0@ == id,
        news == olds.push(pair),
    ensures
        distinct_keys(news),
        forall|k: Seq<char>|
            k != id ==> #[trigger] has_key(news, k) == has_key(olds, k),
        forall|k: Seq<char>|
            k != id && has_key(olds, k) ==> #[trigger] val_of(news, k) == val_of(olds, k),
        has_key(news, id),
        val_of(news, id) == pair.1,
{
    let n = olds.len() as int;
    assert(news[n] == pair);
    assert(forall|j: int| 0 <= j < n ==> news[j] == olds[j]);
    assert forall|j1: int, j2: int| 0 <= j1 < j2 < news.len() implies news[j1].0@
        != news[j2].0@ by {
        if j2 < n {
            assert(olds[j1].0@ != olds[j2].0@);
        } else {
            assert(news[j2] == pair);
            assert(has_key(olds, news[j1].0@));
        }
    }
    assert forall|k: Seq<char>| k != id implies #[trigger] has_key(news, k) == has_key(
        olds,
        k,
    ) by {
        if has_key(news, k) {
            let w = key_idx(news, k);
            assert(0 <= w < news.len() && news[w].0@ == k);
            assert(w != n);
        }
        if has_key(olds, k) {
            let w = key_idx(olds, k);
            assert(news[w].0@ == k);
        }
    }
    assert forall|k: Seq<char>|
        k != id && has_key(olds, k) implies #[trigger] val_of(news, k) == val_of(olds, k) by {
        let w = key_idx(olds, k);
        lemma_key_idx_unique_dyn(olds, k, w);
        assert(news[w] == olds[w]);
        lemma_key_idx_unique_dyn(news, k, w);
    }
    lemma_key_idx_unique_dyn(news, id, n);
}

/// Removing the entry at a key's index keeps distinctness and every other
/// entry, and removes the key.
proof fn lemma_registry_remove(
    olds: Seq<(String, Box<dyn Component>)>,
    news: Seq<(String, Box<dyn Component>)>,
    i: int,
    id: Seq<char>,
)
    requires
        distinct_keys(olds),
        0 <= i < olds.len(),
        olds[i].0@ == id,
        news == olds.remove(i),
    ensures
        distinct_keys(news),
        !has_key(news, id),
        forall|k: Seq<char>|
            k != id ==> #[trigger] has_key(news, k) == has_key(olds, k),
        forall|k: Seq<char>|
            k != id && has_key(olds, k) ==> #[trigger] val_of(news, k) == val_of(olds, k),
{
    assert(forall|j: int| 0 <= j < i ==> news[j] == olds[j]);
    assert(forall|j: int| i <= j < news.len() ==> news[j] == olds[j + 1]);
    if has_key(news, id) {
        let w = key_idx(news, id);
        assert(0 <= w < news.len() && news[w].0@ == id);
        if w < i {
            assert(olds[w].0@ == id);
        } else {
            assert(olds[w + 1].0@ == id);
        }
    }
    assert forall|k: Seq<char>| k != id implies #[trigger] has_key(news, k) == has_key(
        olds,
        k,
    ) by {
        if has_key(olds, k) {
            let w = key_idx(olds, k);
            assert(olds[w].0@ == k);
            if w < i {
                assert(news[w] == olds[w]);
            } else {
                assert(w != i);
                assert(news[w - 1] == olds[w]);
            }
        }
        if has_key(news, k) {
            let w = key_idx(news, k);
            assert(news[w].0@ == k);
        }
    }
    assert forall|k: Seq<char>|
        k != id && has_key(olds, k) implies #[trigger] val_of(news, k) == val_of(olds, k) by {
        let w = key_idx(olds, k);
        lemma_key_idx_unique_dyn(olds, k, w);
        assert(olds[w].0@ == k);
        if w < i {
            assert(news[w] == olds[w]);
            lemma_key_idx_unique_dyn(news, k, w);
        } else {
            assert(w != i);
            assert(news[w - 1] == olds[w]);
            lemma_key_idx_unique_dyn(news, k, w - 1);
        }
    }
}

/// Under distinct keys, the entry carrying `k` is unique, so `key_idx` picks
/// exactly the witness index.
proof fn lemma_key_idx_unique_dyn(
    s: Seq<(String, Box<dyn Component>)>,
    k: Seq<char>,
    i: int,
)
    requires
        distinct_keys(s),
        0 <= i < s.len(),
        s[i].0@ == k,
    ensures
        has_key(s, k),
        key_idx(s, k) == i,
{
    assert(has_key(s, k));
    let j = key_idx(s, k);
    assert(0 <= j < s.len() && s[j].0@ == k);
    if i < j {
        assert(s[i].0@ != s[j].0@);
    } else if j < i {
        assert(s[j].0@ != s[i].0@);
    }
}

} // verus!
