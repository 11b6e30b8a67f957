//! The keybindings by key.
use crate::config::{Config, Keybind, Modifiers};
use crate::text;
use vstd::prelude::*;

verus! {

/// A key as a binding is looked up: its modifiers and its name in lower case.
pub type KeyView = (Modifiers, Seq<char>);

/// Puts the bindings of a list into a map, one after another: of two bindings
/// of one key the later one holds.
pub open spec fn bound(list: Seq<crate::config::KeybindView>) -> Map<KeyView, Seq<char>>
    decreases list.len(),
{
    if list.len() == 0 {
        Map::empty()
    } else {
        let last = list.last();
        bound(list.drop_last()).insert((last.modifiers, last.key), last.action)
    }
}

/// A binding with its key in lower case.
pub open spec fn lowered_bind(k: crate::config::KeybindView) -> crate::config::KeybindView {
    crate::config::KeybindView { key: text::lowered(k.key), ..k }
}

/// What a configuration binds: the keys in lower case, the later binding of a
/// key over an earlier one.
pub open spec fn bindings(list: Seq<crate::config::KeybindView>) -> Map<KeyView, Seq<char>> {
    bound(list.map_values(|k: crate::config::KeybindView| lowered_bind(k)))
}

/// The bindings by key. No key is bound twice.
#[derive(Clone, Debug)]
pub struct KeybindMap {
    pub entries: Vec<Keybind>,
}

/// Whether two bindings are of one key.
pub open spec fn same_key(
    a: crate::config::KeybindView,
    b: crate::config::KeybindView,
) -> bool {
    a.modifiers == b.modifiers && a.key == b.key
}

/// Whether no key is bound twice.
pub open spec fn distinct(list: Seq<crate::config::KeybindView>) -> bool {
    forall|i: int, j: int|
        0 <= i < j < list.len() ==> !same_key(#[trigger] list[i], #[trigger] list[j])
}

/// A list without repeated keys maps each key to its action, and no other.
pub proof fn bound_by_entries(list: Seq<crate::config::KeybindView>)
    requires
        distinct(list),
    ensures
        forall|i: int|
            0 <= i < list.len() ==> {
                let k = #[trigger] list[i];
                &&& bound(list).dom().contains((k.modifiers, k.key))
                &&& bound(list)[(k.modifiers, k.key)] == k.action
            },
        forall|q: KeyView| #[trigger]
            bound(list).dom().contains(q) ==> exists|i: int|
                0 <= i < list.len() && (#[trigger] list[i]).modifiers == q.0 && list[i].key == q.1,
    decreases list.len(),
{
    if list.len() > 0 {
        let rest = list.drop_last();
        let last = list.last();
        assert(distinct(rest)) by {
            assert forall|i: int, j: int| 0 <= i < j < rest.len() implies !same_key(
                #[trigger] rest[i],
                #[trigger] rest[j],
            ) by {
                assert(!same_key(list[i], list[j]));
            }
        }
        bound_by_entries(rest);
        assert forall|i: int| 0 <= i < list.len() implies {
            let k = #[trigger] list[i];
            &&& bound(list).dom().contains((k.modifiers, k.key))
            &&& bound(list)[(k.modifiers, k.key)] == k.action
        } by {
            if i < rest.len() {
                assert(rest[i] == list[i]);
                assert(!same_key(list[i], list[list.len() - 1]));
            }
        }
        assert forall|q: KeyView| #[trigger] bound(list).dom().contains(q) implies exists|i: int|
            0 <= i < list.len() && (#[trigger] list[i]).modifiers == q.0 && list[i].key == q.1 by {
            if q == (last.modifiers, last.key) {
                assert(list[list.len() - 1] == last);
            } else {
                assert(bound(rest).dom().contains(q));
                let i = choose|i: int|
                    0 <= i < rest.len() && (#[trigger] rest[i]).modifiers == q.0 && rest[i].key
                        == q.1;
                assert(list[i] == rest[i]);
            }
        }
    }
}

impl View for KeybindMap {
    type V = Map<KeyView, Seq<char>>;

    open spec fn view(&self) -> Map<KeyView, Seq<char>> {
        bound(crate::config::keybind_views(self.entries@))
    }
}

impl KeybindMap {
    pub open spec fn wf(self) -> bool {
        distinct(crate::config::keybind_views(self.entries@))
    }

    pub fn new() -> (r: Self)
        ensures
            r.wf(),
            r@ == Map::<KeyView, Seq<char>>::empty(),
    {
        KeybindMap { entries: Vec::new() }
    }

    /// The place of the binding of a key.
    fn place(&self, modifiers: Modifiers, key: &str) -> (r: Option<usize>)
        ensures
            match r {
                Some(i) => i < self.entries@.len() && self.entries@[i as int].modifiers == modifiers
                    && self.entries@[i as int].key@ == key@,
                None => forall|i: int|
                    0 <= i < self.entries@.len() ==> !((#[trigger] self.entries@[i]).modifiers
                        == modifiers && self.entries@[i].key@ == key@),
            },
    {
        let mut i: usize = 0;
        while i < self.entries.len()
            invariant
                i <= self.entries.len(),
                forall|j: int|
                    0 <= j < i ==> !((#[trigger] self.entries@[j]).modifiers == modifiers
                        && self.entries@[j].key@ == key@),
            decreases self.entries.len() - i,
        {
            if self.entries[i].modifiers == modifiers && text::same_text(
                self.entries[i].key.as_str(),
                key,
            ) {
                return Some(i);
            }
            i = i + 1;
        }
        None
    }

    /// The action of a key.
    pub fn get(&self, modifiers: Modifiers, key: &str) -> (r: Option<&String>)
        requires
            self.wf(),
        ensures
            match r {
                Some(action) => self@.dom().contains((modifiers, key@)) && action@ == self@[(
                    modifiers,
                    key@,
                )],
                None => !self@.dom().contains((modifiers, key@)),
            },
    {
        let ghost views = crate::config::keybind_views(self.entries@);
        proof {
            bound_by_entries(views);
        }
        match self.place(modifiers, key) {
            Some(i) => {
                assert(views[i as int] == self.entries@[i as int]@);
                Some(&self.entries[i].action)
            },
            None => {
                assert forall|i: int| 0 <= i < views.len() implies !((#[trigger] views[i]).modifiers
                    == modifiers && views[i].key == key@) by {
                    assert(views[i] == self.entries@[i]@);
                }
                None
            },
        }
    }

    /// Binds a key, in place of what it was bound to.
    pub fn insert(&mut self, kb: Keybind)
        requires
            old(self).wf(),
        ensures
            final(self).wf(),
            final(self)@ == old(self)@.insert((kb.modifiers, kb.key@), kb.action@),
    {
        let ghost before = crate::config::keybind_views(self.entries@);
        let ghost k = kb@;
        proof {
            bound_by_entries(before);
        }
        match self.place(kb.modifiers, kb.key.as_str()) {
            Some(i) => {
                self.entries.set(i, kb);
                let ghost after = crate::config::keybind_views(self.entries@);
                proof {
                    let i = i as int;
                    assert(after == before.update(i, k));
                    assert(same_key(before[i], k));
                    assert forall|a: int, b: int| 0 <= a < b < after.len() implies !same_key(
                        #[trigger] after[a],
                        #[trigger] after[b],
                    ) by {
                        assert(!same_key(before[a], before[b]));
                    }
                    bound_by_entries(after);
                    let new = bound(before).insert((k.modifiers, k.key), k.action);
                    assert forall|q: KeyView| #[trigger]
                        bound(after).dom().contains(q) == new.dom().contains(q) && (new.dom().contains(
                            q,
                        ) ==> bound(after)[q] == new[q]) by {
                        if new.dom().contains(q) {
                            if q == (k.modifiers, k.key) {
                                assert(after[i] == k);
                            } else {
                                assert(bound(before).dom().contains(q));
                                let j = choose|j: int|
                                    0 <= j < before.len() && (#[trigger] before[j]).modifiers == q.0
                                        && before[j].key == q.1;
                                assert(j != i);
                                assert(after[j] == before[j]);
                            }
                        }
                        if bound(after).dom().contains(q) {
                            let j = choose|j: int|
                                0 <= j < after.len() && (#[trigger] after[j]).modifiers == q.0
                                    && after[j].key == q.1;
                            if j != i {
                                assert(after[j] == before[j]);
                            }
                        }
                    }
                    assert(bound(after) =~= new);
                }
            },
            None => {
                self.entries.push(kb);
                let ghost after = crate::config::keybind_views(self.entries@);
                proof {
                    assert(after == before.push(k));
                    assert(after.drop_last() == before);
                    assert forall|a: int, b: int| 0 <= a < b < after.len() implies !same_key(
                        #[trigger] after[a],
                        #[trigger] after[b],
                    ) by {
                        if b < before.len() {
                            assert(!same_key(before[a], before[b]));
                        } else {
                            assert(after[a] == old(self).entries@[a]@);
                        }
                    }
                }
            },
        }
    }
}

impl Config {
    /// The bindings by key.
    pub fn keybind_map(&self) -> (r: KeybindMap)
        ensures
            r.wf(),
            r@ == bindings(self@.keybinds),
    {
        let mut map = KeybindMap::new();
        let mut i: usize = 0;
        let ghost all = self@.keybinds.map_values(|k: crate::config::KeybindView| lowered_bind(k));
        while i < self.keybinds.len()
            invariant
                i <= self.keybinds.len(),
                all == self@.keybinds.map_values(
                    |k: crate::config::KeybindView| lowered_bind(k),
                ),
                map.wf(),
                map@ == bound(all.take(i as int)),
            decreases self.keybinds.len() - i,
        {
            let kb = &self.keybinds[i];
            map.insert(
                Keybind {
                    modifiers: kb.modifiers,
                    key: text::to_lowercase(kb.key.as_str()),
                    action: kb.action.clone(),
                },
            );
            assert(all.take(i + 1).drop_last() == all.take(i as int));
            i = i + 1;
        }
        assert(all.take(all.len() as int) == all);
        map
    }
}

/// The last binding of a key holds, whatever is bound before it.
pub proof fn last_binding_holds(
    list: Seq<crate::config::KeybindView>,
    last: crate::config::KeybindView,
)
    ensures
        bindings(list.push(last)) == bindings(list).insert(
            (last.modifiers, text::lowered(last.key)),
            last.action,
        ),
{
    let f = |k: crate::config::KeybindView| lowered_bind(k);
    assert(list.push(last).map_values(f).drop_last() == list.map_values(f));
    assert(list.push(last).map_values(f).last() == lowered_bind(last));
}

} // verus!
