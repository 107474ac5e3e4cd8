//! The dispatch table: the name-to-handler mapping the host consults when it
//! routes an incoming call to the guest.
//!
//! Abstractly a table is a finite map from operation names to
//! [`HandlerKind`]s; registering under a name that is already present
//! overwrites the earlier entry (last write wins).

use vstd::prelude::*;

verus! {

/// Names one of the handlers this guest module defines.
///
/// `Echo` stands for [`crate::handlers::echo`] and `Nope` for
/// [`crate::handlers::nope`].
#[derive(Debug, Clone, Copy, PartialEq, Eq, Structural)]
pub enum HandlerKind {
    Echo,
    Nope,
}

struct TableEntry {
    name: String,
    kind: HandlerKind,
}

/// A registry of named handlers, abstractly a `Map<Seq<char>, HandlerKind>`.
pub struct DispatchTable {
    entries: Vec<TableEntry>,
}

spec fn distinct_names(s: Seq<(Seq<char>, HandlerKind)>) -> bool {
    forall|i: int, j: int| 0 <= i < j < s.len() ==> s[i].0 != s[j].0
}

spec fn table_map(s: Seq<(Seq<char>, HandlerKind)>) -> Map<Seq<char>, HandlerKind>
    decreases s.len(),
{
    if s.len() == 0 {
        Map::empty()
    } else {
        table_map(s.drop_last()).insert(s.last().0, s.last().1)
    }
}

proof fn lemma_table_map_contains(s: Seq<(Seq<char>, HandlerKind)>, k: Seq<char>)
    ensures
        table_map(s).contains_key(k) <==> (exists|i: int| 0 <= i < s.len() && s[i].0 == k),
    decreases s.len(),
{
    if s.len() > 0 {
        let dl = s.drop_last();
        lemma_table_map_contains(dl, k);
        if s.last().0 == k {
            assert(s[s.len() - 1].0 == k);
        } else {
            if table_map(s).contains_key(k) {
                let i = choose|i: int| 0 <= i < dl.len() && dl[i].0 == k;
                assert(s[i].0 == k);
            }
            if exists|i: int| 0 <= i < s.len() && s[i].0 == k {
                let i = choose|i: int| 0 <= i < s.len() && s[i].0 == k;
                assert(dl[i].0 == k);
            }
        }
    }
}

proof fn lemma_table_map_at(s: Seq<(Seq<char>, HandlerKind)>, i: int)
    requires
        distinct_names(s),
        0 <= i < s.len(),
    ensures
        table_map(s).contains_key(s[i].0),
        table_map(s)[s[i].0] == s[i].1,
    decreases s.len(),
{
    let dl = s.drop_last();
    if i < s.len() - 1 {
        assert(distinct_names(dl));
        lemma_table_map_at(dl, i);
        assert(s[i].0 != s.last().0);
    }
}

proof fn lemma_table_map_update(s: Seq<(Seq<char>, HandlerKind)>, i: int, k: HandlerKind)
    requires
        distinct_names(s),
        0 <= i < s.len(),
    ensures
        table_map(s.update(i, (s[i].0, k))) == table_map(s).insert(s[i].0, k),
    decreases s.len(),
{
    let t = s.update(i, (s[i].0, k));
    let dl = s.drop_last();
    if i == s.len() - 1 {
        assert(t.drop_last() =~= dl);
        assert(table_map(s).insert(s[i].0, k) =~= table_map(dl).insert(s[i].0, k));
    } else {
        assert(distinct_names(dl));
        lemma_table_map_update(dl, i, k);
        assert(t.drop_last() =~= dl.update(i, (dl[i].0, k)));
        assert(s[i].0 != s.last().0);
        assert(table_map(dl).insert(s[i].0, k).insert(s.last().0, s.last().1) =~= table_map(
            dl,
        ).insert(s.last().0, s.last().1).insert(s[i].0, k));
    }
}

proof fn lemma_table_map_dom_len(s: Seq<(Seq<char>, HandlerKind)>)
    requires
        distinct_names(s),
    ensures
        table_map(s).dom().finite(),
        table_map(s).dom().len() == s.len(),
    decreases s.len(),
{
    if s.len() > 0 {
        let dl = s.drop_last();
        assert(distinct_names(dl));
        lemma_table_map_dom_len(dl);
        lemma_table_map_contains(dl, s.last().0);
        assert forall|i: int| 0 <= i < dl.len() implies dl[i].0 != s.last().0 by {
            assert(s[i].0 != s[s.len() - 1].0);
        }
        assert(!table_map(dl).contains_key(s.last().0));
        assert(table_map(s).dom() =~= table_map(dl).dom().insert(s.last().0));
    }
}

impl DispatchTable {
    spec fn pairs(&self) -> Seq<(Seq<char>, HandlerKind)> {
        self.entries@.map_values(|e: TableEntry| (e.name@, e.kind))
    }

    #[verifier::type_invariant]
    spec fn wf(&self) -> bool {
        distinct_names(self.pairs())
    }
}

impl View for DispatchTable {
    type V = Map<Seq<char>, HandlerKind>;

    closed spec fn view(&self) -> Map<Seq<char>, HandlerKind> {
        table_map(self.pairs())
    }
}

/// Whether the name of `a` reads the same as `b`.
fn names_equal(a: &String, b: &str) -> (r: bool)
    ensures
        r == (a@ == b@),
{
    let owned: String = b.to_owned();
    *a == owned
}

impl DispatchTable {
    /// A table with no handler registered.
    pub fn new() -> (t: DispatchTable)
        ensures
            t@ == Map::<Seq<char>, HandlerKind>::empty(),
    {
        let t = DispatchTable { entries: Vec::new() };
        proof {
            assert(t.pairs() =~= Seq::<(Seq<char>, HandlerKind)>::empty());
            assert(t@ =~= Map::<Seq<char>, HandlerKind>::empty());
        }
        t
    }

    /// The index of the entry registered under `name`, if any.
    fn find(&self, name: &str) -> (r: Option<usize>)
        ensures
            match r {
                Some(i) => i < self.entries@.len() && self.entries@[i as int].name@ == name@,
                None => forall|j: int|
                    0 <= j < self.entries@.len() ==> self.entries@[j].name@ != name@,
            },
    {
        let mut i: usize = 0;
        while i < self.entries.len()
            invariant
                i <= self.entries@.len(),
                forall|j: int| 0 <= j < i ==> self.entries@[j].name@ != name@,
            decreases self.entries@.len() - i,
        {
            if names_equal(&self.entries[i].name, name) {
                return Some(i);
            }
            i = i + 1;
        }
        None
    }

    /// Registers `kind` under `name`. A handler already registered under the
    /// same name is overwritten; every other entry is kept.
    pub fn register(&mut self, name: &str, kind: HandlerKind)
        ensures
            final(self)@ == old(self)@.insert(name@, kind),
    {
        proof {
            use_type_invariant(&*self);
        }
        let found = self.find(name);
        let mut entries: Vec<TableEntry> = Vec::new();
        std::mem::swap(&mut entries, &mut self.entries);
        proof {
            assert(self.pairs() =~= Seq::<(Seq<char>, HandlerKind)>::empty());
        }
        let ghost s = old(self).pairs();
        match found {
            Some(i) => {
                let kept = entries[i].name.clone();
                entries.set(i, TableEntry { name: kept, kind });
                proof {
                    assert(entries@.map_values(|e: TableEntry| (e.name@, e.kind)) =~= s.update(
                        i as int,
                        (s[i as int].0, kind),
                    ));
                    lemma_table_map_update(s, i as int, kind);
                }
            },
            None => {
                entries.push(TableEntry { name: name.to_owned(), kind });
                proof {
                    let p = entries@.map_values(|e: TableEntry| (e.name@, e.kind));
                    assert(p =~= s.push((name@, kind)));
                    assert(p.drop_last() =~= s);
                    assert(distinct_names(p)) by {
                        assert(forall|j: int| 0 <= j < s.len() ==> s[j].0 != name@);
                    }
                }
            },
        }
        self.entries = entries;
        proof {
            assert(self@ =~= old(self)@.insert(name@, kind));
        }
    }

    /// The handler registered under `name`, if any.
    pub fn lookup(&self, name: &str) -> (r: Option<HandlerKind>)
        ensures
            r == if self@.contains_key(name@) {
                Some(self@[name@])
            } else {
                None::<HandlerKind>
            },
    {
        proof {
            use_type_invariant(&*self);
        }
        let found = self.find(name);
        proof {
            lemma_table_map_contains(self.pairs(), name@);
        }
        match found {
            Some(i) => {
                proof {
                    lemma_table_map_at(self.pairs(), i as int);
                }
                Some(self.entries[i].kind)
            },
            None => {
                proof {
                    assert(forall|j: int|
                        0 <= j < self.pairs().len() ==> self.pairs()[j].0 != name@);
                }
                None
            },
        }
    }

    /// Whether some handler is registered under `name`.
    pub fn contains(&self, name: &str) -> (r: bool)
        ensures
            r == self@.contains_key(name@),
    {
        self.lookup(name).is_some()
    }

    /// How many names are registered.
    pub fn len(&self) -> (n: usize)
        ensures
            n == self@.dom().len(),
    {
        proof {
            use_type_invariant(&*self);
            lemma_table_map_dom_len(self.pairs());
        }
        self.entries.len()
    }
}

} // verus!
