//! The table of bot commands: each name is bound to at most one handler, and
//! binding a name again replaces its handler, as a `HashMap` insert does.

use vstd::prelude::*;
use vstd::string::*;

verus! {

/// The names and handlers, each name once.
pub struct CommandRegistry<V> {
    entries: Vec<(String, V)>,
}

/// The map that a list of bindings denotes, a later binding of a name
/// overriding an earlier one.
pub open spec fn bindings_map<V>(s: Seq<(String, V)>) -> Map<Seq<char>, V>
    decreases s.len(),
{
    if s.len() == 0 {
        Map::empty()
    } else {
        bindings_map(s.drop_last()).insert(s.last().0@, s.last().1)
    }
}

/// No name is bound twice.
pub open spec fn names_distinct<V>(s: Seq<(String, V)>) -> bool {
    forall|i: int, j: int| 0 <= i < j < s.len() ==> s[i].0@ != s[j].0@
}

proof fn lemma_bindings_domain<V>(s: Seq<(String, V)>, k: Seq<char>)
    ensures
        bindings_map(s).contains_key(k) <==> exists|i: int| 0 <= i < s.len() && s[i].0@ == k,
    decreases s.len(),
{
    if s.len() > 0 {
        lemma_bindings_domain(s.drop_last(), k);
        if bindings_map(s).contains_key(k) && s.last().0@ != k {
            let i = choose|i: int| 0 <= i < s.drop_last().len() && s.drop_last()[i].0@ == k;
            assert(s[i].0@ == k);
        }
        if exists|i: int| 0 <= i < s.len() && s[i].0@ == k {
            let i = choose|i: int| 0 <= i < s.len() && s[i].0@ == k;
            if i < s.len() - 1 {
                assert(s.drop_last()[i].0@ == k);
            }
        }
    }
}

proof fn lemma_bindings_value<V>(s: Seq<(String, V)>, i: int)
    requires
        names_distinct(s),
        0 <= i < s.len(),
    ensures
        bindings_map(s).contains_key(s[i].0@),
        bindings_map(s)[s[i].0@] == s[i].1,
    decreases s.len(),
{
    if i < s.len() - 1 {
        assert(names_distinct(s.drop_last()));
        assert(s.drop_last()[i] == s[i]);
        lemma_bindings_value(s.drop_last(), i);
        assert(s.last().0@ != s[i].0@);
    }
}

proof fn lemma_bindings_update<V>(s: Seq<(String, V)>, i: int, name: String, v: V)
    requires
        names_distinct(s),
        0 <= i < s.len(),
        s[i].0@ == name@,
    ensures
        names_distinct(s.update(i, (name, v))),
        bindings_map(s.update(i, (name, v))) == bindings_map(s).insert(name@, v),
    decreases s.len(),
{
    let t = s.update(i, (name, v));
    assert(names_distinct(t)) by {
        assert forall|a: int, b: int| 0 <= a < b < t.len() implies t[a].0@ != t[b].0@ by {
            assert(t[a].0@ == s[a].0@);
            assert(t[b].0@ == s[b].0@);
        }
    }
    if i == s.len() - 1 {
        assert(t.drop_last() =~= s.drop_last());
        assert(bindings_map(t) =~= bindings_map(s).insert(name@, v));
    } else {
        assert(names_distinct(s.drop_last()));
        assert(t.drop_last() =~= s.drop_last().update(i, (name, v)));
        lemma_bindings_update(s.drop_last(), i, name, v);
        assert(s.last().0@ != name@);
        assert(t.last() == s.last());
        assert(bindings_map(t) =~= bindings_map(s).insert(name@, v));
    }
}

impl<V> CommandRegistry<V> {
    /// The handler bound to each name.
    pub closed spec fn view(&self) -> Map<Seq<char>, V> {
        bindings_map(self.entries@)
    }

    /// No name is bound twice.
    #[verifier::type_invariant]
    closed spec fn wf(&self) -> bool {
        names_distinct(self.entries@)
    }

    /// A table with no command.
    pub fn new() -> (r: Self)
        ensures
            r@ == Map::<Seq<char>, V>::empty(),
    {
        CommandRegistry { entries: Vec::new() }
    }

    /// Binds `name` to `logic`, replacing any handler it had.
    pub fn register(&mut self, name: &str, logic: V)
        ensures
            final(self)@ == old(self)@.insert(name@, logic),
    {
        proof {
            use_type_invariant(&*self);
        }
        let key = String::from_str(name);
        let mut entries: Vec<(String, V)> = Vec::new();
        std::mem::swap(&mut entries, &mut self.entries);
        let ghost before = entries@;
        let mut i: usize = 0;
        while i < entries.len()
            invariant
                names_distinct(before),
                before == old(self).entries@,
                entries@ == before,
                key@ == name@,
                i <= entries.len(),
                forall|j: int| 0 <= j < i ==> entries@[j].0@ != name@,
            decreases entries.len() - i,
        {
            if entries[i].0 == key {
                proof {
                    lemma_bindings_update(entries@, i as int, key, logic);
                }
                entries.set(i, (key, logic));
                self.entries = entries;
                return;
            }
            i = i + 1;
        }
        entries.push((key, logic));
        proof {
            assert(entries@.drop_last() =~= before);
            assert forall|a: int, b: int| 0 <= a < b < entries@.len() implies entries@[a].0@
                != entries@[b].0@ by {
                if b < before.len() {
                    assert(entries@[a] == before[a]);
                    assert(entries@[b] == before[b]);
                }
            }
        }
        self.entries = entries;
    }

    /// The handler bound to `name`, if any.
    pub fn get(&self, name: &str) -> (r: Option<&V>)
        ensures
            match r {
                Some(v) => self@.contains_key(name@) && *v == self@[name@],
                None => !self@.contains_key(name@),
            },
    {
        proof {
            use_type_invariant(self);
        }
        let key = String::from_str(name);
        let mut i: usize = 0;
        while i < self.entries.len()
            invariant
                self.wf(),
                key@ == name@,
                i <= self.entries.len(),
                forall|j: int| 0 <= j < i ==> self.entries@[j].0@ != name@,
            decreases self.entries.len() - i,
        {
            if self.entries[i].0 == key {
                proof {
                    lemma_bindings_value(self.entries@, i as int);
                }
                return Some(&self.entries[i].1);
            }
            i = i + 1;
        }
        proof {
            lemma_bindings_domain(self.entries@, name@);
        }
        None
    }
}

impl<V: Clone> Clone for CommandRegistry<V> {
    /// A table with the same names, each bound to a clone of its handler.
    fn clone(&self) -> (r: Self)
        ensures
            r@.dom() == self@.dom(),
            forall|k: Seq<char>| #[trigger] r@.contains_key(k) ==> cloned::<V>(self@[k], r@[k]),
    {
        proof {
            use_type_invariant(self);
        }
        let mut entries: Vec<(String, V)> = Vec::new();
        let mut i: usize = 0;
        while i < self.entries.len()
            invariant
                names_distinct(self.entries@),
                i <= self.entries.len(),
                entries.len() == i,
                forall|j: int|
                    0 <= j < i ==> #[trigger] entries@[j].0@ == self.entries@[j].0@ && cloned::<V>(
                        self.entries@[j].1,
                        entries@[j].1,
                    ),
            decreases self.entries.len() - i,
        {
            let name = self.entries[i].0.clone();
            let handler = self.entries[i].1.clone();
            entries.push((name, handler));
            i = i + 1;
        }
        proof {
            let s = self.entries@;
            let t = entries@;
            assert(names_distinct(t)) by {
                assert forall|a: int, b: int| 0 <= a < b < t.len() implies t[a].0@ != t[b].0@ by {
                    assert(t[a].0@ == s[a].0@);
                    assert(t[b].0@ == s[b].0@);
                }
            }
            assert forall|k: Seq<char>| #[trigger] bindings_map(t).contains_key(k)
                == bindings_map(s).contains_key(k) by {
                lemma_bindings_domain(s, k);
                lemma_bindings_domain(t, k);
                if exists|i: int| 0 <= i < s.len() && s[i].0@ == k {
                    let i = choose|i: int| 0 <= i < s.len() && s[i].0@ == k;
                    assert(t[i].0@ == k);
                }
                if exists|i: int| 0 <= i < t.len() && t[i].0@ == k {
                    let i = choose|i: int| 0 <= i < t.len() && t[i].0@ == k;
                    assert(s[i].0@ == k);
                }
            }
            assert(bindings_map(t).dom() =~= bindings_map(s).dom());
            assert forall|k: Seq<char>| #[trigger] bindings_map(t).contains_key(k) implies cloned::<V>(
                bindings_map(s)[k],
                bindings_map(t)[k],
            ) by {
                lemma_bindings_domain(t, k);
                let i = choose|i: int| 0 <= i < t.len() && t[i].0@ == k;
                assert(s[i].0@ == k);
                lemma_bindings_value(s, i);
                lemma_bindings_value(t, i);
            }
        }
        CommandRegistry { entries }
    }
}

/// What a lookup gives back after a binding: the handler just bound under
/// that name, and under every other name what was there before.
pub proof fn lemma_register_then_get<V>(before: Map<Seq<char>, V>, name: Seq<char>, v: V, other: Seq<char>)
    ensures
        before.insert(name, v).contains_key(name),
        before.insert(name, v)[name] == v,
        other != name ==> (before.insert(name, v).contains_key(other) == before.contains_key(other)),
        other != name && before.contains_key(other) ==> before.insert(name, v)[other] == before[other],
{
}

} // verus!
