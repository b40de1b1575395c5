//! Values kept by name.
//!
//! The entries stand in the order in which their names first came in; of
//! two entries with one name the first counts, so that a table answers as a
//! mapping from names to values does.

use crate::value::{entries_view, lemma_entries_view, Ident, Value, ValueView};
use vstd::prelude::*;

verus! {

/// The mathematical form of a table: names with their values, in order.
pub type Bindings = Seq<(Seq<char>, ValueView)>;

/// Where the first entry named `key` stands in `t`; the length of `t`
/// where there is none.
pub open spec fn position(t: Bindings, key: Seq<char>) -> int
    decreases t.len(),
{
    if t.len() == 0 {
        0
    } else if t[0].0 == key {
        0
    } else {
        1 + position(t.drop_first(), key)
    }
}

/// Whether `t` has an entry named `key`.
pub open spec fn bound(t: Bindings, key: Seq<char>) -> bool {
    position(t, key) < t.len()
}

/// The value that `t` has for `key`, if any.
pub open spec fn lookup(t: Bindings, key: Seq<char>) -> Option<ValueView> {
    if bound(t, key) {
        Some(t[position(t, key)].1)
    } else {
        None
    }
}

/// `t` with `value` for `key`: in the place of the value it had, or at the
/// end where it had none.
pub open spec fn bind(t: Bindings, key: Seq<char>, value: ValueView) -> Bindings {
    if bound(t, key) {
        t.update(position(t, key), (key, value))
    } else {
        t.push((key, value))
    }
}

/// `position` is the least index of an entry named `key`.
pub proof fn lemma_position(t: Bindings, key: Seq<char>)
    ensures
        0 <= position(t, key) <= t.len(),
        forall|j: int| 0 <= j < position(t, key) ==> (#[trigger] t[j]).0 != key,
        position(t, key) < t.len() ==> t[position(t, key)].0 == key,
    decreases t.len(),
{
    if t.len() > 0 && t[0].0 != key {
        let rest = t.drop_first();
        lemma_position(rest, key);
        assert forall|j: int| 0 <= j < position(t, key) implies (#[trigger] t[j]).0 != key by {
            if j > 0 {
                assert(t[j] == rest[j - 1]);
            }
        }
    }
}

/// An index before which no entry is named `key`, and at which one is or
/// `t` ends, is the position of `key`.
pub proof fn lemma_position_is(t: Bindings, key: Seq<char>, i: int)
    requires
        0 <= i <= t.len(),
        forall|j: int| 0 <= j < i ==> (#[trigger] t[j]).0 != key,
        i < t.len() ==> t[i].0 == key,
    ensures
        position(t, key) == i,
{
    lemma_position(t, key);
    let p = position(t, key);
    if p < i {
        assert(t[p].0 != key);
    } else if i < p {
        assert(t[i].0 != key);
    }
}

/// A table answers as a mapping does: after `bind`, the bound name has the
/// new value and every other name what it had.
pub proof fn lemma_lookup_bind(t: Bindings, key: Seq<char>, value: ValueView, other: Seq<char>)
    ensures
        lookup(bind(t, key, value), other) == if other == key {
            Some(value)
        } else {
            lookup(t, other)
        },
{
    lemma_position(t, key);
    lemma_position(t, other);
    let after = bind(t, key, value);
    let p = position(t, key);
    if other == key {
        assert forall|j: int| 0 <= j < p implies (#[trigger] after[j]).0 != key by {
            assert(t[j].0 != key);
        }
        lemma_position_is(after, key, p);
    } else {
        let q = position(t, other);
        assert forall|j: int| 0 <= j < q implies (#[trigger] after[j]).0 != other by {
            assert(t[j].0 != other);
        }
        if q < t.len() {
            lemma_position_is(after, other, q);
        } else {
            assert forall|j: int| 0 <= j < after.len() implies (#[trigger] after[j]).0
                != other by {
                if j < t.len() {
                    assert(t[j].0 != other);
                }
            }
            lemma_position_is(after, other, after.len() as int);
        }
    }
}

/// Where the first entry named `key` stands, if there is one.
pub fn find(entries: &Vec<(Ident, Value)>, key: &String) -> (r: Option<usize>)
    ensures
        match r {
            Some(i) => i < entries@.len() && i == position(entries_view(entries@), key@),
            None => !bound(entries_view(entries@), key@),
        },
{
    let ghost t = entries_view(entries@);
    proof {
        lemma_entries_view(entries@);
    }
    let mut i: usize = 0;
    while i < entries.len()
        invariant
            i <= entries.len(),
            t == entries_view(entries@),
            t.len() == entries@.len(),
            forall|j: int| 0 <= j < t.len() ==> #[trigger] t[j] == (entries@[j].0@, entries@[j].1@),
            forall|j: int| 0 <= j < i ==> (#[trigger] t[j]).0 != key@,
        decreases entries.len() - i,
    {
        if entries[i].0.0 == *key {
            proof {
                assert(t[i as int].0 == key@);
                lemma_position_is(t, key@, i as int);
            }
            return Some(i);
        }
        proof {
            assert(t[i as int].0 != key@);
        }
        i += 1;
    }
    proof {
        lemma_position_is(t, key@, t.len() as int);
    }
    None
}

/// Whether there is an entry named `key`.
pub fn contains_key(entries: &Vec<(Ident, Value)>, key: &String) -> (r: bool)
    ensures
        r == bound(entries_view(entries@), key@),
{
    proof {
        lemma_entries_view(entries@);
    }
    find(entries, key).is_some()
}

/// The value of the first entry named `key`, if there is one.
pub fn get<'a>(entries: &'a Vec<(Ident, Value)>, key: &String) -> (r: Option<&'a Value>)
    ensures
        match r {
            Some(v) => lookup(entries_view(entries@), key@) == Some(v@),
            None => lookup(entries_view(entries@), key@) is None,
        },
{
    proof {
        lemma_entries_view(entries@);
    }
    match find(entries, key) {
        Some(i) => Some(&entries[i].1),
        None => None,
    }
}

/// Gives `key` the value `value`: in the place of the value it had, or at
/// the end where it had none.
pub fn put(entries: &mut Vec<(Ident, Value)>, key: Ident, value: Value)
    ensures
        entries_view(final(entries)@) == bind(entries_view(old(entries)@), key@, value@),
{
    let ghost before = entries@;
    proof {
        lemma_entries_view(before);
    }
    match find(entries, &key.0) {
        Some(i) => {
            entries.set(i, (key, value));
        },
        None => {
            entries.push((key, value));
        },
    }
    proof {
        lemma_entries_view(entries@);
        assert(entries_view(entries@) =~= bind(entries_view(before), key@, value@));
    }
}

} // verus!
