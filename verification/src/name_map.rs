//! A name-keyed collection of subgraph data.
//!
//! Every stage of a supergraph configuration maps subgraph names to
//! per-subgraph data.  Names are unique, and entries are kept sorted by
//! [`lex_lt`](crate::names::lex_lt) so that every walk over a configuration is
//! deterministic.

use vstd::prelude::*;

use crate::names::{lex_lt, lemma_lex_lt_neq, lemma_lex_lt_trans, str_compare, KeyOrder};

verus! {

/// The names of a sequence of entries, in entry order.
pub open spec fn entry_names<T>(s: Seq<(Seq<char>, T)>) -> Seq<Seq<char>> {
    s.map_values(|p: (Seq<char>, T)| p.0)
}

/// Names are strictly increasing, hence unique.
pub open spec fn sorted_names(names: Seq<Seq<char>>) -> bool {
    forall|i: int, j: int| 0 <= i < j < names.len() ==> lex_lt(names[i], names[j])
}

/// The value stored under `name`, taking the first match.
pub open spec fn find_name<T>(s: Seq<(Seq<char>, T)>, name: Seq<char>) -> Option<T>
    decreases s.len(),
{
    if s.len() == 0 {
        None
    } else if s[0].0 == name {
        Some(s[0].1)
    } else {
        find_name(s.skip(1), name)
    }
}

/// Whether some entry is stored under `name`.
pub open spec fn has_name<T>(s: Seq<(Seq<char>, T)>, name: Seq<char>) -> bool {
    find_name(s, name) is Some
}

/// The index of the first entry stored under `name`.
pub open spec fn name_index<T>(s: Seq<(Seq<char>, T)>, name: Seq<char>) -> int
    decreases s.len(),
{
    if s.len() == 0 {
        0
    } else if s[0].0 == name {
        0
    } else {
        1 + name_index(s.skip(1), name)
    }
}

/// The index of the first entry whose name is not below `name`.
pub open spec fn lower_bound<T>(s: Seq<(Seq<char>, T)>, name: Seq<char>) -> int
    decreases s.len(),
{
    if s.len() == 0 {
        0
    } else if lex_lt(s[0].0, name) {
        1 + lower_bound(s.skip(1), name)
    } else {
        0
    }
}

/// The view of a vector of owned entries.
pub open spec fn entries_view<T: View>(s: Seq<(String, T)>) -> Seq<(Seq<char>, T::V)> {
    s.map_values(|p: (String, T)| (p.0@, p.1@))
}

/// A match at index `i`, with no earlier match, settles the lookup.
pub proof fn lemma_find_name_at<T>(s: Seq<(Seq<char>, T)>, name: Seq<char>, i: int)
    requires
        0 <= i < s.len(),
        forall|j: int| 0 <= j < i ==> s[j].0 != name,
        s[i].0 == name,
    ensures
        find_name(s, name) == Some(s[i].1),
        name_index(s, name) == i,
    decreases i,
{
    if i > 0 {
        assert(forall|j: int| 0 <= j < i - 1 ==> s.skip(1)[j].0 != name);
        assert(s.skip(1)[i - 1] == s[i]);
        lemma_find_name_at(s.skip(1), name, i - 1);
    }
}

/// No match anywhere settles the lookup.
pub proof fn lemma_find_name_none<T>(s: Seq<(Seq<char>, T)>, name: Seq<char>)
    requires
        forall|j: int| 0 <= j < s.len() ==> s[j].0 != name,
    ensures
        find_name(s, name) is None,
    decreases s.len(),
{
    if s.len() > 0 {
        assert(forall|j: int| 0 <= j < s.skip(1).len() ==> s.skip(1)[j].0 != name);
        lemma_find_name_none(s.skip(1), name);
    }
}

/// A scan that stops at index `i` determines the lower bound.
proof fn lemma_lower_bound_at<T>(s: Seq<(Seq<char>, T)>, name: Seq<char>, i: int)
    requires
        0 <= i <= s.len(),
        forall|j: int| 0 <= j < i ==> lex_lt(s[j].0, name),
        i == s.len() || !lex_lt(s[i].0, name),
    ensures
        lower_bound(s, name) == i,
    decreases i,
{
    if i > 0 {
        assert(forall|j: int| 0 <= j < i - 1 ==> lex_lt(s.skip(1)[j].0, name));
        if i < s.len() {
            assert(s.skip(1)[i - 1] == s[i]);
        }
        lemma_lower_bound_at(s.skip(1), name, i - 1);
    }
}

/// Inserting a name between its neighbours keeps the names sorted.
proof fn lemma_sorted_insert(names: Seq<Seq<char>>, i: int, name: Seq<char>)
    requires
        sorted_names(names),
        0 <= i <= names.len(),
        forall|j: int| 0 <= j < i ==> lex_lt(names[j], name),
        forall|k: int| i <= k < names.len() ==> lex_lt(name, names[k]),
    ensures
        sorted_names(names.insert(i, name)),
{
    names.insert_ensures(i, name);
    let t = names.insert(i, name);
    assert forall|p: int, q: int| 0 <= p < q < t.len() implies lex_lt(t[p], t[q]) by {
        if p < i {
            assert(t[p] == names[p]);
        }
        if q < i {
            assert(t[q] == names[q]);
        }
        if p > i {
            assert(t[p] == names[p - 1]);
        }
        if q > i {
            assert(t[q] == names[q - 1]);
        }
    }
}

/// Dropping an entry keeps the names sorted.
proof fn lemma_sorted_remove(names: Seq<Seq<char>>, i: int)
    requires
        sorted_names(names),
        0 <= i < names.len(),
    ensures
        sorted_names(names.remove(i)),
{
    let t = names.remove(i);
    assert forall|p: int, q: int| 0 <= p < q < t.len() implies lex_lt(t[p], t[q]) by {
        if p < i {
            assert(t[p] == names[p]);
        } else {
            assert(t[p] == names[p + 1]);
        }
        if q < i {
            assert(t[q] == names[q]);
        } else {
            assert(t[q] == names[q + 1]);
        }
    }
}

/// Replacing an entry whose name is not `n` leaves the lookup of `n` alone.
proof fn lemma_find_update_other<T>(s: Seq<(Seq<char>, T)>, i: int, e: (Seq<char>, T), n: Seq<char>)
    requires
        0 <= i < s.len(),
        s[i].0 != n,
        e.0 != n,
    ensures
        find_name(s.update(i, e), n) == find_name(s, n),
    decreases s.len(),
{
    let t = s.update(i, e);
    if i == 0 {
        assert(t.skip(1) =~= s.skip(1));
    } else {
        assert(t[0] == s[0]);
        if s[0].0 != n {
            assert(t.skip(1) =~= s.skip(1).update(i - 1, e));
            lemma_find_update_other(s.skip(1), i - 1, e, n);
        }
    }
}

/// Adding an entry whose name is not `n` leaves the lookup of `n` alone.
proof fn lemma_find_insert_other<T>(s: Seq<(Seq<char>, T)>, i: int, e: (Seq<char>, T), n: Seq<char>)
    requires
        0 <= i <= s.len(),
        e.0 != n,
    ensures
        find_name(s.insert(i, e), n) == find_name(s, n),
    decreases s.len(),
{
    s.insert_ensures(i, e);
    let t = s.insert(i, e);
    if i == 0 {
        assert(t[0] == e);
        assert(t.skip(1) =~= s);
    } else {
        assert(t[0] == s[0]);
        if s[0].0 != n {
            assert(t.skip(1) =~= s.skip(1).insert(i - 1, e));
            lemma_find_insert_other(s.skip(1), i - 1, e, n);
        }
    }
}

/// Dropping an entry whose name is not `n` leaves the lookup of `n` alone.
proof fn lemma_find_remove_other<T>(s: Seq<(Seq<char>, T)>, i: int, n: Seq<char>)
    requires
        0 <= i < s.len(),
        s[i].0 != n,
    ensures
        find_name(s.remove(i), n) == find_name(s, n),
    decreases s.len(),
{
    let t = s.remove(i);
    if i == 0 {
        assert(t =~= s.skip(1));
    } else {
        assert(t[0] == s[0]);
        if s[0].0 != n {
            assert(t.skip(1) =~= s.skip(1).remove(i - 1));
            lemma_find_remove_other(s.skip(1), i - 1, n);
        }
    }
}

/// Walking one entry forward through a vector of owned entries walks its view
/// one entry forward.
pub proof fn lemma_entries_view_skip<T: View>(
    prev: Seq<(String, T)>,
    tail: Seq<(String, T)>,
    s: Seq<(Seq<char>, T::V)>,
    k: int,
)
    requires
        prev.len() > 0,
        tail == prev.skip(1),
        entries_view(prev) == s.skip(k),
        0 <= k <= s.len(),
    ensures
        entries_view(tail) =~= s.skip(k + 1),
{
    assert(entries_view(prev).len() == prev.len());
    assert(prev.len() == s.len() - k);
    assert forall|j: int| 0 <= j < tail.len() implies entries_view(tail)[j] == s.skip(k + 1)[j] by {
        assert(0 <= k + 1 + j < s.len());
        assert(tail[j] == prev[j + 1]);
        assert(entries_view(prev)[j + 1] == s.skip(k)[j + 1]);
        assert(s.skip(k)[j + 1] == s[k + 1 + j]);
        assert(s.skip(k + 1)[j] == s[k + 1 + j]);
    }
}

/// A collection of per-subgraph data keyed by unique subgraph names, kept in
/// lexicographic name order.
pub struct NameMap<T> {
    entries: Vec<(String, T)>,
}

impl<T: View> View for NameMap<T> {
    type V = Seq<(Seq<char>, T::V)>;

    closed spec fn view(&self) -> Seq<(Seq<char>, T::V)> {
        entries_view(self.entries@)
    }
}

impl<T: View> NameMap<T> {
    /// Entries are sorted strictly by name.
    pub open spec fn wf(&self) -> bool {
        sorted_names(entry_names(self@))
    }

    /// Creates an empty collection.
    pub fn new() -> (r: NameMap<T>)
        ensures
            r@ == Seq::<(Seq<char>, T::V)>::empty(),
            r.wf(),
    {
        let r = NameMap { entries: Vec::new() };
        proof {
            assert(r@ =~= Seq::<(Seq<char>, T::V)>::empty());
        }
        r
    }

    /// Wraps a vector of entries already sorted strictly by name.
    pub fn from_sorted(entries: Vec<(String, T)>) -> (r: NameMap<T>)
        requires
            sorted_names(entry_names(entries_view(entries@))),
        ensures
            r@ == entries_view(entries@),
            r.wf(),
    {
        NameMap { entries }
    }

    /// Releases the entries, still sorted strictly by name.
    pub fn into_entries(self) -> (r: Vec<(String, T)>)
        ensures
            entries_view(r@) == self@,
    {
        self.entries
    }

    /// The number of entries.
    pub fn len(&self) -> (r: usize)
        ensures
            r == self@.len(),
    {
        self.entries.len()
    }

    /// The entry at position `i` in name order.
    pub fn get_at(&self, i: usize) -> (r: &(String, T))
        requires
            i < self@.len(),
        ensures
            r.0@ == self@[i as int].0,
            r.1@ == self@[i as int].1,
    {
        &self.entries[i]
    }

    /// Looks up the value stored under `name`.
    pub fn get<'a>(&'a self, name: &str) -> (r: Option<&'a T>)
        ensures
            match r {
                Some(v) => find_name(self@, name@) == Some(v@),
                None => !has_name(self@, name@),
            },
    {
        let n = self.entries.len();
        let mut i: usize = 0;
        while i < n
            invariant
                0 <= i <= n,
                n == self@.len(),
                forall|j: int| 0 <= j < i ==> self@[j].0 != name@,
            decreases n - i,
        {
            if crate::names::str_eq(self.entries[i].0.as_str(), name) {
                proof {
                    lemma_find_name_at(self@, name@, i as int);
                }
                return Some(&self.entries[i].1);
            }
            i = i + 1;
        }
        proof {
            lemma_find_name_none(self@, name@);
        }
        None
    }

    /// Whether an entry is stored under `name`.
    pub fn contains_name(&self, name: &str) -> (r: bool)
        ensures
            r == has_name(self@, name@),
    {
        match self.get(name) {
            Some(_) => true,
            None => false,
        }
    }

    /// Finds where `name` is stored or would be inserted: the position, and
    /// whether the entry there already carries `name`.
    fn position_for(&self, name: &str) -> (r: (usize, bool))
        ensures
            r.0 <= self@.len(),
            forall|j: int| 0 <= j < r.0 ==> lex_lt(self@[j].0, name@),
            r.1 ==> r.0 < self@.len() && self@[r.0 as int].0 == name@,
            !r.1 ==> r.0 == self@.len() || lex_lt(name@, self@[r.0 as int].0),
    {
        let n = self.entries.len();
        let mut i: usize = 0;
        while i < n
            invariant
                0 <= i <= n,
                n == self@.len(),
                forall|j: int| 0 <= j < i ==> lex_lt(self@[j].0, name@),
            decreases n - i,
        {
            match str_compare(self.entries[i].0.as_str(), name) {
                KeyOrder::Before => {
                    i = i + 1;
                }
                KeyOrder::Same => {
                    return (i, true);
                }
                KeyOrder::After => {
                    return (i, false);
                }
            }
        }
        (i, false)
    }

    /// Stores `value` under `name`, replacing any previous value.
    pub fn insert(&mut self, name: String, value: T)
        requires
            old(self).wf(),
        ensures
            final(self).wf(),
            final(self)@ == if has_name(old(self)@, name@) {
                old(self)@.update(name_index(old(self)@, name@), (name@, value@))
            } else {
                old(self)@.insert(lower_bound(old(self)@, name@), (name@, value@))
            },
            find_name(final(self)@, name@) == Some(value@),
            forall|n: Seq<char>| n != name@ ==> find_name(final(self)@, n) == find_name(
                old(self)@,
                n,
            ),
            final(self)@.len() == old(self)@.len() + if has_name(old(self)@, name@) {
                0int
            } else {
                1int
            },
    {
        let ghost s0 = self@;
        let (i, found) = self.position_for(name.as_str());
        if found {
            proof {
                assert forall|j: int| 0 <= j < i implies s0[j].0 != name@ by {
                    lemma_lex_lt_neq(s0[j].0, name@);
                }
                lemma_find_name_at(s0, name@, i as int);
            }
            self.entries[i] = (name, value);
            proof {
                let s1 = self@;
                assert(s1 =~= s0.update(i as int, (name@, value@)));
                assert(entry_names(s1) =~= entry_names(s0));
                lemma_find_name_at(s1, name@, i as int);
                assert forall|m: Seq<char>| m != name@ implies find_name(s1, m) == find_name(
                    s0,
                    m,
                ) by {
                    lemma_find_update_other(s0, i as int, (name@, value@), m);
                }
            }
            return;
        }
        // No entry carries `name`: every earlier name is below it, and every
        // later name is above it.
        proof {
            assert forall|k: int| i <= k < s0.len() implies lex_lt(name@, s0[k].0) by {
                if k > i {
                    assert(entry_names(s0)[i as int] == s0[i as int].0);
                    assert(entry_names(s0)[k] == s0[k].0);
                    assert(lex_lt(s0[i as int].0, s0[k].0));
                    lemma_lex_lt_trans(name@, s0[i as int].0, s0[k].0);
                }
            }
            assert forall|k: int| i <= k < s0.len() implies !lex_lt(s0[k].0, name@) by {
                crate::names::lemma_lex_lt_asym(name@, s0[k].0);
            }
            assert forall|j: int| 0 <= j < s0.len() implies s0[j].0 != name@ by {
                if j < i {
                    lemma_lex_lt_neq(s0[j].0, name@);
                } else {
                    lemma_lex_lt_neq(name@, s0[j].0);
                }
            }
            lemma_find_name_none(s0, name@);
            lemma_lower_bound_at(s0, name@, i as int);
        }
        self.entries.insert(i, (name, value));
        proof {
            let s1 = self@;
            let e = (name@, value@);
            s0.insert_ensures(i as int, e);
            assert(s1 =~= s0.insert(i as int, e));
            assert(entry_names(s1) =~= entry_names(s0).insert(i as int, name@));
            lemma_sorted_insert(entry_names(s0), i as int, name@);
            assert forall|j: int| 0 <= j < i implies s1[j].0 != name@ by {
                lemma_lex_lt_neq(s1[j].0, name@);
            }
            lemma_find_name_at(s1, name@, i as int);
            assert forall|m: Seq<char>| m != name@ implies find_name(s1, m) == find_name(s0, m) by {
                lemma_find_insert_other(s0, i as int, e, m);
            }
        }
    }

    /// Drops the entry stored under `name`, if any.
    pub fn remove(&mut self, name: &str)
        requires
            old(self).wf(),
        ensures
            final(self).wf(),
            final(self)@ == if has_name(old(self)@, name@) {
                old(self)@.remove(name_index(old(self)@, name@))
            } else {
                old(self)@
            },
            !has_name(final(self)@, name@),
            forall|n: Seq<char>| n != name@ ==> find_name(final(self)@, n) == find_name(
                old(self)@,
                n,
            ),
    {
        let _taken = self.take(name);
    }

    /// Takes the entry stored under `name` out, if any.
    pub fn take(&mut self, name: &str) -> (r: Option<T>)
        requires
            old(self).wf(),
        ensures
            final(self).wf(),
            match r {
                Some(v) => find_name(old(self)@, name@) == Some(v@),
                None => !has_name(old(self)@, name@),
            },
            final(self)@ == if has_name(old(self)@, name@) {
                old(self)@.remove(name_index(old(self)@, name@))
            } else {
                old(self)@
            },
            final(self)@.len() == old(self)@.len() - (if has_name(old(self)@, name@) {
                1int
            } else {
                0int
            }),
            !has_name(final(self)@, name@),
            forall|n: Seq<char>| n != name@ ==> find_name(final(self)@, n) == find_name(
                old(self)@,
                n,
            ),
    {
        let ghost s0 = self@;
        let n = self.entries.len();
        let mut i: usize = 0;
        while i < n
            invariant
                0 <= i <= n,
                n == self@.len(),
                self@ == s0,
                old(self).wf(),
                s0 == old(self)@,
                forall|j: int| 0 <= j < i ==> self@[j].0 != name@,
            decreases n - i,
        {
            if crate::names::str_eq(self.entries[i].0.as_str(), name) {
                proof {
                    lemma_find_name_at(s0, name@, i as int);
                }
                let taken = self.entries.remove(i);
                proof {
                    let s1 = self@;
                    assert(s1 =~= s0.remove(i as int));
                    assert(entry_names(s1) =~= entry_names(s0).remove(i as int));
                    lemma_sorted_remove(entry_names(s0), i as int);
                    assert forall|j: int| 0 <= j < s1.len() implies s1[j].0 != name@ by {
                        if j < i {
                            assert(s1[j] == s0[j]);
                        } else {
                            assert(s1[j] == s0[j + 1]);
                            assert(entry_names(s0)[i as int] == s0[i as int].0);
                            assert(entry_names(s0)[j + 1] == s0[j + 1].0);
                            assert(lex_lt(s0[i as int].0, s0[j + 1].0));
                            lemma_lex_lt_neq(s0[i as int].0, s0[j + 1].0);
                        }
                    }
                    lemma_find_name_none(s1, name@);
                    assert forall|m: Seq<char>| m != name@ implies find_name(s1, m) == find_name(
                        s0,
                        m,
                    ) by {
                        lemma_find_remove_other(s0, i as int, m);
                    }
                }
                return Some(taken.1);
            }
            i = i + 1;
        }
        proof {
            lemma_find_name_none(s0, name@);
        }
        None
    }
}

} // verus!
