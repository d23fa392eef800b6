use vstd::prelude::*;

use crate::brick::Type;

verus! {

/// What the graph knows of a brick registered under a name: its kind and
/// the handle by which the caller finds the engine's brick again.
#[derive(Clone, Copy, PartialEq, Eq, Structural, Debug)]
pub struct BrickInfo {
    pub kind: Type,
    pub brick: u64,
}

/// The entry that a name has in `m`, if it has one.
pub open spec fn lookup(m: Map<Seq<char>, BrickInfo>, name: Seq<char>) -> Option<BrickInfo> {
    if m.dom().contains(name) {
        Some(m[name])
    } else {
        None
    }
}

#[derive(Debug)]
pub(crate) struct Entry {
    pub(crate) name: String,
    pub(crate) info: BrickInfo,
}

/// The map that a list of entries stands for: a later entry of a name
/// overrides an earlier one.
pub(crate) open spec fn entries_map(s: Seq<Entry>) -> Map<Seq<char>, BrickInfo>
    decreases s.len(),
{
    if s.len() == 0 {
        Map::empty()
    } else {
        entries_map(s.drop_last()).insert(s.last().name@, s.last().info)
    }
}

/// No name occurs twice among the entries.
pub(crate) open spec fn names_unique(s: Seq<Entry>) -> bool {
    forall|i: int, j: int| 0 <= i < j < s.len() ==> #[trigger] s[i].name@ != #[trigger] s[j].name@
}

proof fn lemma_entries_map_dom(s: Seq<Entry>, k: Seq<char>)
    ensures
        entries_map(s).dom().contains(k) <==> exists|i: int| 0 <= i < s.len() && #[trigger] s[i].name@ == k,
    decreases s.len(),
{
    if s.len() > 0 {
        let p = s.drop_last();
        lemma_entries_map_dom(p, k);
        if entries_map(p).dom().contains(k) {
            let i = choose|i: int| 0 <= i < p.len() && #[trigger] p[i].name@ == k;
            assert(s[i].name@ == k);
        }
        if exists|i: int| 0 <= i < s.len() && #[trigger] s[i].name@ == k {
            let i = choose|i: int| 0 <= i < s.len() && #[trigger] s[i].name@ == k;
            if i < s.len() - 1 {
                assert(p[i].name@ == k);
            }
        }
    }
}

proof fn lemma_entries_map_value(s: Seq<Entry>, i: int)
    requires
        names_unique(s),
        0 <= i < s.len(),
    ensures
        entries_map(s).dom().contains(s[i].name@),
        entries_map(s)[s[i].name@] == s[i].info,
    decreases s.len(),
{
    let p = s.drop_last();
    if i < s.len() - 1 {
        assert(s[i].name@ != s[s.len() - 1].name@);
        assert(names_unique(p)) by {
            assert forall|a: int, b: int| 0 <= a < b < p.len() implies #[trigger] p[a].name@ != #[trigger] p[b].name@ by {
                assert(s[a].name@ != s[b].name@);
            }
        }
        assert(p[i] == s[i]);
        lemma_entries_map_value(p, i);
    }
}

proof fn lemma_entries_map_finite(s: Seq<Entry>)
    ensures
        entries_map(s).dom().finite(),
    decreases s.len(),
{
    if s.len() > 0 {
        lemma_entries_map_finite(s.drop_last());
    }
}

proof fn lemma_entries_map_len(s: Seq<Entry>)
    requires
        names_unique(s),
    ensures
        entries_map(s).dom().len() == s.len(),
    decreases s.len(),
{
    if s.len() > 0 {
        let p = s.drop_last();
        assert(names_unique(p)) by {
            assert forall|a: int, b: int| 0 <= a < b < p.len() implies #[trigger] p[a].name@ != #[trigger] p[b].name@ by {
                assert(s[a].name@ != s[b].name@);
            }
        }
        lemma_entries_map_len(p);
        lemma_entries_map_finite(p);
        lemma_entries_map_dom(p, s.last().name@);
        if entries_map(p).dom().contains(s.last().name@) {
            let i = choose|i: int| 0 <= i < p.len() && #[trigger] p[i].name@ == s.last().name@;
            assert(s[i].name@ == s[s.len() - 1].name@);
        }
    }
}

proof fn lemma_entries_map_update(s: Seq<Entry>, i: int, e: Entry)
    requires
        names_unique(s),
        0 <= i < s.len(),
        e.name@ == s[i].name@,
    ensures
        names_unique(s.update(i, e)),
        entries_map(s.update(i, e)) =~= entries_map(s).insert(e.name@, e.info),
{
    let t = s.update(i, e);
    assert(names_unique(t)) by {
        assert forall|a: int, b: int| 0 <= a < b < t.len() implies #[trigger] t[a].name@ != #[trigger] t[b].name@ by {
            assert(t[a].name@ == s[a].name@);
            assert(t[b].name@ == s[b].name@);
        }
    }
    let m = entries_map(s).insert(e.name@, e.info);
    assert forall|k: Seq<char>| #[trigger] entries_map(t).dom().contains(k) <==> m.dom().contains(k) by {
        lemma_entries_map_dom(t, k);
        lemma_entries_map_dom(s, k);
        if exists|j: int| 0 <= j < s.len() && #[trigger] s[j].name@ == k {
            let j = choose|j: int| 0 <= j < s.len() && #[trigger] s[j].name@ == k;
            assert(t[j].name@ == k);
        }
        if exists|j: int| 0 <= j < t.len() && #[trigger] t[j].name@ == k {
            let j = choose|j: int| 0 <= j < t.len() && #[trigger] t[j].name@ == k;
            assert(s[j].name@ == k);
        }
        if k == e.name@ {
            assert(t[i].name@ == k);
        }
    }
    assert forall|k: Seq<char>| #[trigger] entries_map(t).dom().contains(k) implies entries_map(t)[k] == m[k] by {
        lemma_entries_map_dom(t, k);
        let j = choose|j: int| 0 <= j < t.len() && #[trigger] t[j].name@ == k;
        lemma_entries_map_value(t, j);
        if j == i {
            lemma_entries_map_value(t, i);
        } else {
            assert(t[j] == s[j]);
            lemma_entries_map_value(s, j);
            assert(s[j].name@ != s[i].name@);
        }
    }
}

/// The bricks of a graph, by name. No name occurs twice. Only a graph
/// makes one.
#[derive(Debug)]
pub struct BrickTable {
    entries: Vec<Entry>,
}

impl View for BrickTable {
    type V = Map<Seq<char>, BrickInfo>;

    closed spec fn view(&self) -> Map<Seq<char>, BrickInfo> {
        entries_map(self.entries@)
    }
}

impl BrickTable {
    #[verifier::type_invariant]
    spec fn inv(self) -> bool {
        names_unique(self.entries@)
    }

    pub(crate) fn new() -> (t: BrickTable)
        ensures
            t@ == Map::<Seq<char>, BrickInfo>::empty(),
    {
        BrickTable { entries: Vec::new() }
    }

    fn find(&self, name: &String) -> (r: Option<usize>)
        ensures
            match r {
                Some(i) => i < self.entries@.len() && self.entries@[i as int].name@ == name@,
                None => forall|j: int| 0 <= j < self.entries@.len() ==> #[trigger] self.entries@[j].name@ != name@,
            },
    {
        let mut i: usize = 0;
        while i < self.entries.len()
            invariant
                i <= self.entries@.len(),
                forall|j: int| 0 <= j < i ==> #[trigger] self.entries@[j].name@ != name@,
            decreases self.entries@.len() - i,
        {
            if self.entries[i].name == *name {
                return Some(i);
            }
            i = i + 1;
        }
        None
    }

    pub(crate) fn get(&self, name: &String) -> (r: Option<BrickInfo>)
        ensures
            r == lookup(self@, name@),
            r is Some <==> self@.dom().contains(name@),
            r is Some ==> r->Some_0 == self@[name@],
    {
        proof {
            use_type_invariant(self);
            lemma_entries_map_dom(self.entries@, name@);
        }
        match self.find(name) {
            Some(i) => {
                proof {
                    lemma_entries_map_value(self.entries@, i as int);
                }
                Some(self.entries[i].info)
            },
            None => None,
        }
    }

    /// Registers `info` under `name`, in place of what the name had, and
    /// returns what it had.
    pub(crate) fn insert(&mut self, name: String, info: BrickInfo) -> (r: Option<BrickInfo>)
        ensures
            final(self)@ == old(self)@.insert(name@, info),
            r == lookup(old(self)@, name@),
            r is Some <==> old(self)@.dom().contains(name@),
            r is Some ==> r->Some_0 == old(self)@[name@],
    {
        proof {
            use_type_invariant(&*self);
            lemma_entries_map_dom(self.entries@, name@);
        }
        let found = self.find(&name);
        let mut entries = Vec::new();
        std::mem::swap(&mut entries, &mut self.entries);
        let ghost s = entries@;
        match found {
            Some(i) => {
                proof {
                    lemma_entries_map_value(s, i as int);
                }
                let prev = entries[i].info;
                let e = Entry { name, info };
                proof {
                    lemma_entries_map_update(s, i as int, e);
                }
                entries.set(i, e);
                self.entries = entries;
                Some(prev)
            },
            None => {
                let e = Entry { name, info };
                entries.push(e);
                proof {
                    assert(entries@.drop_last() =~= s);
                    assert(names_unique(entries@)) by {
                        assert forall|a: int, b: int| 0 <= a < b < entries@.len() implies
                            #[trigger] entries@[a].name@ != #[trigger] entries@[b].name@ by {
                            if b < s.len() {
                                assert(entries@[a] == s[a]);
                                assert(entries@[b] == s[b]);
                            } else {
                                assert(entries@[a] == s[a]);
                            }
                        }
                    }
                }
                self.entries = entries;
                None
            },
        }
    }

    /// The names of the bricks, each once, in the order in which they were
    /// first registered.
    pub(crate) fn names(&self) -> (r: Vec<String>)
        ensures
            r@.len() == self@.dom().len(),
            forall|i: int| 0 <= i < r@.len() ==> self@.dom().contains(#[trigger] r@[i]@),
            forall|k: Seq<char>| #[trigger] self@.dom().contains(k) ==> exists|i: int| 0 <= i < r@.len() && #[trigger] r@[i]@ == k,
            forall|i: int, j: int| 0 <= i < j < r@.len() ==> #[trigger] r@[i]@ != #[trigger] r@[j]@,
    {
        proof {
            use_type_invariant(self);
            lemma_entries_map_len(self.entries@);
        }
        let mut r: Vec<String> = Vec::new();
        let mut i: usize = 0;
        while i < self.entries.len()
            invariant
                i <= self.entries@.len(),
                r@.len() == i,
                names_unique(self.entries@),
                forall|j: int| 0 <= j < i ==> #[trigger] r@[j]@ == self.entries@[j].name@,
            decreases self.entries@.len() - i,
        {
            r.push(self.entries[i].name.clone());
            i = i + 1;
        }
        proof {
            assert forall|j: int| 0 <= j < r@.len() implies self@.dom().contains(#[trigger] r@[j]@) by {
                lemma_entries_map_value(self.entries@, j);
            }
            assert forall|k: Seq<char>| #[trigger] self@.dom().contains(k) implies exists|j: int| 0 <= j < r@.len() && #[trigger] r@[j]@ == k by {
                lemma_entries_map_dom(self.entries@, k);
                let j = choose|j: int| 0 <= j < self.entries@.len() && #[trigger] self.entries@[j].name@ == k;
                assert(r@[j]@ == k);
            }
            assert forall|a: int, b: int| 0 <= a < b < r@.len() implies #[trigger] r@[a]@ != #[trigger] r@[b]@ by {
                assert(self.entries@[a].name@ != self.entries@[b].name@);
            }
        }
        r
    }
}

} // verus!
