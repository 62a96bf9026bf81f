//! Named arguments of passes: a map from names to values.

use vstd::prelude::*;

verus! {

/// The map that a list of entries stands for: a later entry for a name
/// replaces an earlier one.
pub open spec fn entries_map(s: Seq<(Seq<char>, Seq<char>)>) -> Map<Seq<char>, Seq<char>>
    decreases s.len(),
{
    if s.len() == 0 {
        Map::empty()
    } else {
        entries_map(s.drop_last()).insert(s.last().0, s.last().1)
    }
}

/// The entries without those of one name, the rest in their order.
pub open spec fn entries_without(s: Seq<(Seq<char>, Seq<char>)>, key: Seq<char>) -> Seq<
    (Seq<char>, Seq<char>),
>
    decreases s.len(),
{
    if s.len() == 0 {
        s
    } else if s.last().0 == key {
        entries_without(s.drop_last(), key)
    } else {
        entries_without(s.drop_last(), key).push(s.last())
    }
}

/// Whether no two entries have the same name.
pub open spec fn keys_distinct(s: Seq<(Seq<char>, Seq<char>)>) -> bool {
    forall|i: int, j: int| 0 <= i < s.len() && 0 <= j < s.len() && i != j ==> s[i].0 != s[j].0
}

/// The entries without those of one name stand for the map without that
/// name, hold no entry of that name, and only entries that were there.
pub proof fn lemma_entries_without(s: Seq<(Seq<char>, Seq<char>)>, key: Seq<char>)
    ensures
        entries_map(entries_without(s, key)) == entries_map(s).remove(key),
        forall|i: int|
            0 <= i < entries_without(s, key).len() ==> (#[trigger] entries_without(s, key)[i]).0
                != key,
        keys_distinct(s) ==> keys_distinct(entries_without(s, key)),
        forall|i: int|
            0 <= i < entries_without(s, key).len() ==> s.contains(
                #[trigger] entries_without(s, key)[i],
            ),
    decreases s.len(),
{
    let r = entries_without(s, key);
    if s.len() == 0 {
        assert(entries_map(s).remove(key) =~= Map::empty());
    } else {
        let init = s.drop_last();
        let last = s.last();
        let w = entries_without(init, key);
        lemma_entries_without(init, key);
        assert forall|i: int| 0 <= i < r.len() implies s.contains(#[trigger] r[i]) by {
            if i < w.len() {
                assert(init.contains(w[i]));
                let k = choose|k: int| 0 <= k < init.len() && init[k] == w[i];
                assert(s[k] == w[i]);
            } else {
                assert(s[s.len() - 1] == last);
            }
        }
        if last.0 == key {
            assert(r == w);
            assert(entries_map(init).insert(key, last.1).remove(key) =~= entries_map(init).remove(
                key,
            ));
        } else {
            assert(r == w.push(last));
            assert(r.drop_last() =~= w);
            assert(r.last() == last);
            assert(entries_map(r) == entries_map(w).insert(last.0, last.1));
            assert(entries_map(init).remove(key).insert(last.0, last.1) =~= entries_map(
                init,
            ).insert(last.0, last.1).remove(key));
            if keys_distinct(s) {
                assert(keys_distinct(init)) by {
                    assert forall|i: int, j: int|
                        0 <= i < init.len() && 0 <= j < init.len() && i != j implies init[i].0
                        != init[j].0 by {
                        assert(s[i].0 != s[j].0);
                    }
                }
                assert forall|i: int, j: int|
                    0 <= i < r.len() && 0 <= j < r.len() && i != j implies r[i].0 != r[j].0 by {
                    if i < w.len() && j < w.len() {
                    } else if i < w.len() {
                        assert(init.contains(w[i]));
                        let k = choose|k: int| 0 <= k < init.len() && init[k] == w[i];
                        assert(s[k].0 != s[s.len() - 1].0);
                    } else {
                        assert(init.contains(w[j]));
                        let k = choose|k: int| 0 <= k < init.len() && init[k] == w[j];
                        assert(s[k].0 != s[s.len() - 1].0);
                    }
                }
            }
        }
    }
}

/// The map of a list of entries has a name exactly if an entry has it.
pub proof fn lemma_entries_map_dom(s: Seq<(Seq<char>, Seq<char>)>, key: Seq<char>)
    ensures
        entries_map(s).dom().contains(key) <==> exists|i: int|
            0 <= i < s.len() && (#[trigger] s[i]).0 == key,
    decreases s.len(),
{
    if s.len() > 0 {
        let init = s.drop_last();
        lemma_entries_map_dom(init, key);
        if s.last().0 == key {
            assert(s[s.len() - 1].0 == key);
        } else if entries_map(s).dom().contains(key) {
            let i = choose|i: int| 0 <= i < init.len() && (#[trigger] init[i]).0 == key;
            assert(s[i].0 == key);
        } else if exists|i: int| 0 <= i < s.len() && (#[trigger] s[i]).0 == key {
            let i = choose|i: int| 0 <= i < s.len() && (#[trigger] s[i]).0 == key;
            assert(init[i].0 == key);
        }
    }
}

/// The named arguments that are handed to the passes: each name has one
/// value, and setting a name again replaces its value.
#[derive(Debug)]
pub struct PassArguments {
    entries: Vec<(String, String)>,
}

impl View for PassArguments {
    type V = Map<Seq<char>, Seq<char>>;

    /// The arguments as a map from names to values.
    open spec fn view(&self) -> Map<Seq<char>, Seq<char>> {
        entries_map(self.spec_entries())
    }
}

impl PassArguments {
    /// The entries, in the order in which their names were last set.
    pub closed spec fn spec_entries(&self) -> Seq<(Seq<char>, Seq<char>)> {
        self.entries.deep_view()
    }

    #[verifier::type_invariant]
    spec fn inv(&self) -> bool {
        keys_distinct(self.entries.deep_view())
    }

    /// No arguments.
    pub fn new() -> (r: PassArguments)
        ensures
            r@ == Map::<Seq<char>, Seq<char>>::empty(),
            r.spec_entries() == Seq::<(Seq<char>, Seq<char>)>::empty(),
    {
        let r = PassArguments { entries: Vec::new() };
        assert(r.entries.deep_view() =~= Seq::empty());
        r
    }

    /// The number of names that have a value.
    pub fn len(&self) -> (r: usize)
        ensures
            r == self.spec_entries().len(),
            r == self@.dom().len(),
    {
        proof {
            use_type_invariant(self);
            lemma_distinct_len(self.entries.deep_view());
        }
        self.entries.len()
    }

    /// Gives the name a value, in place of the one it had if it had one. The
    /// entry moves to the end of the list.
    pub fn insert(&mut self, key: &str, value: &str)
        ensures
            final(self)@ == old(self)@.insert(key@, value@),
            final(self).spec_entries() == entries_without(old(self).spec_entries(), key@).push(
                (key@, value@),
            ),
    {
        proof {
            use_type_invariant(&*self);
        }
        let ghost before = self.entries.deep_view();
        let mut kept: Vec<(String, String)> = Vec::new();
        let mut i: usize = 0;
        while i < self.entries.len()
            invariant
                i <= self.entries.len(),
                self.entries.deep_view() == before,
                kept.deep_view() == entries_without(before.take(i as int), key@),
            decreases self.entries.len() - i,
        {
            proof {
                let next = before.take(i + 1);
                assert(next.drop_last() =~= before.take(i as int));
                assert(next.last() == before[i as int]);
                assert(before[i as int] == self.entries[i as int].deep_view());
            }
            let same = crate::text::str_eq(self.entries[i].0.as_str(), key);
            if !same {
                let ghost old_kept = kept.deep_view();
                let entry = (self.entries[i].0.clone(), self.entries[i].1.clone());
                kept.push(entry);
                assert(kept.deep_view() =~= old_kept.push(before[i as int]));
            }
            i = i + 1;
        }
        let ghost filtered = kept.deep_view();
        kept.push((key.to_owned(), value.to_owned()));
        proof {
            assert(before.take(before.len() as int) =~= before);
            assert(kept.deep_view() =~= filtered.push((key@, value@)));
            lemma_entries_without(before, key@);
            let after = kept.deep_view();
            assert(after.drop_last() =~= filtered);
            assert(entries_map(after) == entries_map(filtered).insert(key@, value@));
            assert(entries_map(before).remove(key@).insert(key@, value@) =~= entries_map(
                before,
            ).insert(key@, value@));
            assert(keys_distinct(after)) by {
                assert forall|a: int, b: int|
                    0 <= a < after.len() && 0 <= b < after.len() && a != b implies after[a].0
                    != after[b].0 by {
                    if a < filtered.len() && b < filtered.len() {
                    } else if a < filtered.len() {
                        assert(filtered[a].0 != key@);
                    } else {
                        assert(filtered[b].0 != key@);
                    }
                }
            }
        }
        self.entries = kept;
    }

    /// The value of a name, if it has one.
    pub fn get(&self, key: &str) -> (r: Option<String>)
        ensures
            r is Some <==> self@.dom().contains(key@),
            r matches Some(value) ==> value@ == self@[key@],
    {
        proof {
            use_type_invariant(self);
        }
        let ghost all = self.entries.deep_view();
        let mut i: usize = 0;
        while i < self.entries.len()
            invariant
                i <= self.entries.len(),
                all == self.entries.deep_view(),
                keys_distinct(all),
                forall|j: int| 0 <= j < i ==> (#[trigger] all[j]).0 != key@,
            decreases self.entries.len() - i,
        {
            assert(all[i as int] == self.entries[i as int].deep_view());
            if crate::text::str_eq(self.entries[i].0.as_str(), key) {
                proof {
                    lemma_entries_map_dom(all, key@);
                    lemma_distinct_lookup(all, i as int);
                }
                return Some(self.entries[i].1.clone());
            }
            i = i + 1;
        }
        proof {
            lemma_entries_map_dom(all, key@);
        }
        None
    }

    /// The entries as a list of pairs of name and value, in their order.
    pub fn to_vec(&self) -> (r: Vec<(String, String)>)
        ensures
            r.deep_view() == self.spec_entries(),
            keys_distinct(self.spec_entries()),
    {
        proof {
            use_type_invariant(self);
        }
        let mut out: Vec<(String, String)> = Vec::new();
        let mut i: usize = 0;
        while i < self.entries.len()
            invariant
                i <= self.entries.len(),
                out.deep_view() == self.entries.deep_view().take(i as int),
            decreases self.entries.len() - i,
        {
            let ghost before = out.deep_view();
            out.push((self.entries[i].0.clone(), self.entries[i].1.clone()));
            proof {
                assert(self.entries.deep_view()[i as int] == self.entries[i as int].deep_view());
                assert(out.deep_view() =~= before.push(self.entries.deep_view()[i as int]));
                assert(self.entries.deep_view().take(i + 1) =~= before.push(
                    self.entries.deep_view()[i as int],
                ));
            }
            i = i + 1;
        }
        proof {
            assert(self.entries.deep_view().take(self.entries.len() as int)
                =~= self.entries.deep_view());
        }
        out
    }

    /// A copy of the arguments.
    pub fn duplicate(&self) -> (r: PassArguments)
        ensures
            r@ == self@,
            r.spec_entries() == self.spec_entries(),
    {
        proof {
            use_type_invariant(self);
        }
        PassArguments { entries: self.to_vec() }
    }
}

impl Clone for PassArguments {
    fn clone(&self) -> (r: PassArguments)
        ensures
            r@ == self@,
            r.spec_entries() == self.spec_entries(),
    {
        self.duplicate()
    }
}

impl Default for PassArguments {
    fn default() -> (r: PassArguments)
        ensures
            r@ == Map::<Seq<char>, Seq<char>>::empty(),
            r.spec_entries() == Seq::<(Seq<char>, Seq<char>)>::empty(),
    {
        PassArguments::new()
    }
}

/// Where no two entries have the same name, the map has the value of each
/// entry at its name.
pub proof fn lemma_distinct_lookup(s: Seq<(Seq<char>, Seq<char>)>, i: int)
    requires
        keys_distinct(s),
        0 <= i < s.len(),
    ensures
        entries_map(s).dom().contains(s[i].0),
        entries_map(s)[s[i].0] == s[i].1,
    decreases s.len(),
{
    if i < s.len() - 1 {
        let init = s.drop_last();
        assert(keys_distinct(init)) by {
            assert forall|a: int, b: int|
                0 <= a < init.len() && 0 <= b < init.len() && a != b implies init[a].0
                != init[b].0 by {
                assert(s[a].0 != s[b].0);
            }
        }
        lemma_distinct_lookup(init, i);
        assert(s[i].0 != s[s.len() - 1].0);
    }
}

/// Where no two entries have the same name, the map has as many names as
/// there are entries.
pub proof fn lemma_distinct_len(s: Seq<(Seq<char>, Seq<char>)>)
    requires
        keys_distinct(s),
    ensures
        entries_map(s).dom().finite(),
        entries_map(s).dom().len() == s.len(),
    decreases s.len(),
{
    if s.len() > 0 {
        let init = s.drop_last();
        assert(keys_distinct(init)) by {
            assert forall|a: int, b: int|
                0 <= a < init.len() && 0 <= b < init.len() && a != b implies init[a].0
                != init[b].0 by {
                assert(s[a].0 != s[b].0);
            }
        }
        lemma_distinct_len(init);
        lemma_entries_map_dom(init, s.last().0);
        assert(!entries_map(init).dom().contains(s.last().0)) by {
            if exists|k: int| 0 <= k < init.len() && (#[trigger] init[k]).0 == s.last().0 {
                let k = choose|k: int| 0 <= k < init.len() && (#[trigger] init[k]).0 == s.last().0;
                assert(s[k].0 != s[s.len() - 1].0);
            }
        }
    }
}

} // verus!
