//! The type catalog that the type tables are built from: one entry per type
//! oid, held in a `BTreeMap` keyed by oid and read in increasing order of oid.

use vstd::prelude::*;
use std::collections::BTreeMap;
use vstd::std_specs::iter::IteratorSpec;
use vstd::std_specs::btree::increasing_seq;

verus! {

/// What the catalog says of one type.
pub struct TypeEntry {
    /// The type's name in its schema.
    pub name: String,
    /// The name of the enum variant that stands for the type.
    pub variant: String,
    /// The name of the constant that stands for the type.
    pub ident: String,
    /// The catalog's category letter for the type.
    pub kind: String,
    /// The catalog's `typtype`, where it gives one.
    pub typtype: Option<String>,
    /// The element, base or range subtype oid, or 0.
    pub element: u32,
    /// The schema that holds the type.
    pub schema: String,
    /// The documentation line of the type's constant.
    pub doc: String,
}

/// A catalog entry as text.
pub struct EntryView {
    pub name: Seq<char>,
    pub variant: Seq<char>,
    pub ident: Seq<char>,
    pub kind: Seq<char>,
    pub typtype: Option<Seq<char>>,
    pub element: u32,
    pub schema: Seq<char>,
    pub doc: Seq<char>,
}

/// An optional string as text.
pub open spec fn opt_text(o: Option<String>) -> Option<Seq<char>> {
    match o {
        Some(s) => Some(s@),
        None => None,
    }
}

impl View for TypeEntry {
    type V = EntryView;

    open spec fn view(&self) -> EntryView {
        EntryView {
            name: self.name@,
            variant: self.variant@,
            ident: self.ident@,
            kind: self.kind@,
            typtype: opt_text(self.typtype),
            element: self.element,
            schema: self.schema@,
            doc: self.doc@,
        }
    }
}

/// A copy of an optional string.
pub fn copy_opt(o: &Option<String>) -> (r: Option<String>)
    ensures
        opt_text(r) == opt_text(*o),
{
    match o {
        Some(s) => Some(s.clone()),
        None => None,
    }
}

impl TypeEntry {
    /// A copy of the entry.
    pub fn duplicate(&self) -> (r: TypeEntry)
        ensures
            r@ == self@,
    {
        TypeEntry {
            name: self.name.clone(),
            variant: self.variant.clone(),
            ident: self.ident.clone(),
            kind: self.kind.clone(),
            typtype: copy_opt(&self.typtype),
            element: self.element,
            schema: self.schema.clone(),
            doc: self.doc.clone(),
        }
    }
}

/// Whether the oids of `s` increase strictly.
pub open spec fn oids_increasing(s: Seq<(u32, EntryView)>) -> bool {
    forall|i: int, j: int| 0 <= i < j < s.len() ==> #[trigger] s[i].0 < #[trigger] s[j].0
}

/// Whether some entry of `s` has the oid `k`.
pub open spec fn has_oid(s: Seq<(u32, EntryView)>, k: u32) -> bool {
    exists|i: int| 0 <= i < s.len() && #[trigger] s[i].0 == k
}

/// The entries of `s` by oid.
pub open spec fn table_map(s: Seq<(u32, EntryView)>) -> Map<u32, EntryView> {
    Map::new(
        |k: u32| has_oid(s, k),
        |k: u32| s[choose|i: int| 0 <= i < s.len() && #[trigger] s[i].0 == k].1,
    )
}

/// Entries as text.
pub open spec fn entries_view(v: Seq<(u32, TypeEntry)>) -> Seq<(u32, EntryView)> {
    v.map_values(|p: (u32, TypeEntry)| (p.0, p.1@))
}

pub proof fn lemma_table_map_index(s: Seq<(u32, EntryView)>, i: int)
    requires
        oids_increasing(s),
        0 <= i < s.len(),
    ensures
        table_map(s).contains_key(s[i].0),
        table_map(s)[s[i].0] == s[i].1,
{
    assert(has_oid(s, s[i].0));
    let j = choose|j: int| 0 <= j < s.len() && #[trigger] s[j].0 == s[i].0;
    if j < i {
        assert(s[j].0 < s[i].0);
    } else if i < j {
        assert(s[i].0 < s[j].0);
    }
}

proof fn lemma_update_map(s: Seq<(u32, EntryView)>, i: int, e: EntryView)
    requires
        oids_increasing(s),
        0 <= i < s.len(),
    ensures
        oids_increasing(s.update(i, (s[i].0, e))),
        table_map(s.update(i, (s[i].0, e))) == table_map(s).insert(s[i].0, e),
{
    let k0 = s[i].0;
    let t = s.update(i, (k0, e));
    assert forall|a: int, b: int| 0 <= a < b < t.len() implies #[trigger] t[a].0 < #[trigger] t[b].0 by {
        assert(s[a].0 < s[b].0);
    }
    assert forall|k: u32| #[trigger] has_oid(t, k) == table_map(s).insert(k0, e).contains_key(k) by {
        if has_oid(t, k) {
            let j = choose|j: int| 0 <= j < t.len() && #[trigger] t[j].0 == k;
            assert(s[j].0 == k);
        }
        if has_oid(s, k) {
            let j = choose|j: int| 0 <= j < s.len() && #[trigger] s[j].0 == k;
            assert(t[j].0 == k);
        }
        if k == k0 {
            assert(t[i].0 == k);
        }
    }
    assert forall|k: u32| #[trigger] table_map(t).contains_key(k) implies table_map(t)[k]
        == table_map(s).insert(k0, e)[k] by {
        let j = choose|j: int| 0 <= j < t.len() && #[trigger] t[j].0 == k;
        lemma_table_map_index(t, j);
        if j != i {
            lemma_table_map_index(s, j);
        }
    }
    assert(table_map(t) =~= table_map(s).insert(k0, e));
}

proof fn lemma_insert_map(s: Seq<(u32, EntryView)>, i: int, k0: u32, e: EntryView)
    requires
        oids_increasing(s),
        0 <= i <= s.len(),
        forall|j: int| 0 <= j < i ==> #[trigger] s[j].0 < k0,
        forall|j: int| i <= j < s.len() ==> #[trigger] s[j].0 > k0,
    ensures
        oids_increasing(s.insert(i, (k0, e))),
        table_map(s.insert(i, (k0, e))) == table_map(s).insert(k0, e),
{
    let t = s.insert(i, (k0, e));
    assert forall|a: int, b: int| 0 <= a < b < t.len() implies #[trigger] t[a].0 < #[trigger] t[b].0 by {
        if b < i {
            assert(s[a].0 < s[b].0);
        } else if b == i {
            assert(s[a].0 < k0);
        } else if a < i {
            assert(s[a].0 < k0);
            assert(s[b - 1].0 > k0);
        } else if a == i {
            assert(s[b - 1].0 > k0);
        } else {
            assert(s[a - 1].0 < s[b - 1].0);
        }
    }
    assert forall|k: u32| #[trigger] has_oid(t, k) == table_map(s).insert(k0, e).contains_key(k) by {
        if has_oid(t, k) {
            let j = choose|j: int| 0 <= j < t.len() && #[trigger] t[j].0 == k;
            if j < i {
                assert(s[j].0 == k);
            } else if j > i {
                assert(s[j - 1].0 == k);
            }
        }
        if has_oid(s, k) {
            let j = choose|j: int| 0 <= j < s.len() && #[trigger] s[j].0 == k;
            if j < i {
                assert(t[j].0 == k);
            } else {
                assert(t[j + 1].0 == k);
            }
        }
        if k == k0 {
            assert(t[i].0 == k);
        }
    }
    assert forall|k: u32| #[trigger] table_map(t).contains_key(k) implies table_map(t)[k]
        == table_map(s).insert(k0, e)[k] by {
        let j = choose|j: int| 0 <= j < t.len() && #[trigger] t[j].0 == k;
        lemma_table_map_index(t, j);
        if j < i {
            lemma_table_map_index(s, j);
        } else if j > i {
            lemma_table_map_index(s, j - 1);
        }
    }
    assert(table_map(t) =~= table_map(s).insert(k0, e));
}

/// The last entry of an increasing table leaves its map when it is dropped.
proof fn lemma_drop_last_map(s: Seq<(u32, EntryView)>)
    requires
        oids_increasing(s),
        s.len() > 0,
    ensures
        oids_increasing(s.drop_last()),
        !table_map(s.drop_last()).contains_key(s.last().0),
        table_map(s) == table_map(s.drop_last()).insert(s.last().0, s.last().1),
{
    let t = s.drop_last();
    let n = s.len() - 1;
    let k0 = s.last().0;
    assert forall|a: int, b: int| 0 <= a < b < t.len() implies #[trigger] t[a].0 < #[trigger] t[b].0 by {
        assert(s[a].0 < s[b].0);
    }
    assert forall|k: u32| #[trigger] has_oid(s, k) == table_map(t).insert(k0, s.last().1).contains_key(k) by {
        if has_oid(s, k) && k != k0 {
            let j = choose|j: int| 0 <= j < s.len() && #[trigger] s[j].0 == k;
            assert(t[j].0 == k);
        }
        if has_oid(t, k) {
            let j = choose|j: int| 0 <= j < t.len() && #[trigger] t[j].0 == k;
            assert(s[j].0 == k);
        }
        if k == k0 {
            assert(s[n].0 == k);
        }
    }
    if has_oid(t, k0) {
        let j = choose|j: int| 0 <= j < t.len() && #[trigger] t[j].0 == k0;
        assert(s[j].0 < s[n].0);
    }
    assert forall|k: u32| #[trigger] table_map(s).contains_key(k) implies table_map(s)[k]
        == table_map(t).insert(k0, s.last().1)[k] by {
        let j = choose|j: int| 0 <= j < s.len() && #[trigger] s[j].0 == k;
        lemma_table_map_index(s, j);
        if j < n {
            lemma_table_map_index(t, j);
        }
    }
    assert(table_map(s) =~= table_map(t).insert(k0, s.last().1));
}

/// An increasing table has as many entries as its map has keys.
pub proof fn lemma_table_map_len(s: Seq<(u32, EntryView)>)
    requires
        oids_increasing(s),
    ensures
        table_map(s).dom().finite(),
        table_map(s).dom().len() == s.len(),
    decreases s.len(),
{
    if s.len() == 0 {
        assert(table_map(s).dom() =~= Set::<u32>::empty());
    } else {
        lemma_drop_last_map(s);
        lemma_table_map_len(s.drop_last());
        assert(table_map(s).dom() =~= table_map(s.drop_last()).dom().insert(s.last().0));
    }
}

/// Two increasing tables with the same map are the same table.
pub proof fn lemma_table_unique(s: Seq<(u32, EntryView)>, t: Seq<(u32, EntryView)>)
    requires
        oids_increasing(s),
        oids_increasing(t),
        table_map(s) == table_map(t),
    ensures
        s == t,
    decreases s.len(),
{
    if s.len() == 0 || t.len() == 0 {
        if s.len() > 0 {
            lemma_table_map_index(s, 0);
            assert(!has_oid(t, s[0].0));
        }
        if t.len() > 0 {
            lemma_table_map_index(t, 0);
            assert(!has_oid(s, t[0].0));
        }
        assert(s =~= t);
    } else {
        let ks = s.last().0;
        let kt = t.last().0;
        lemma_table_map_index(s, s.len() - 1);
        lemma_table_map_index(t, t.len() - 1);
        let js = choose|j: int| 0 <= j < t.len() && #[trigger] t[j].0 == ks;
        if js < t.len() - 1 {
            assert(t[js].0 < t[t.len() - 1].0);
        }
        let jt = choose|j: int| 0 <= j < s.len() && #[trigger] s[j].0 == kt;
        if jt < s.len() - 1 {
            assert(s[jt].0 < s[s.len() - 1].0);
        }
        assert(ks == kt);
        lemma_drop_last_map(s);
        lemma_drop_last_map(t);
        assert(table_map(s.drop_last()) =~= table_map(s).remove(ks));
        assert(table_map(t.drop_last()) =~= table_map(t).remove(kt));
        lemma_table_unique(s.drop_last(), t.drop_last());
        assert(s =~= s.drop_last().push(s.last()));
        assert(t =~= t.drop_last().push(t.last()));
    }
}

/// Where `k` goes in the increasing table `s`: after every smaller oid.
pub open spec fn insert_pos(s: Seq<(u32, EntryView)>, k: u32) -> int
    decreases s.len(),
{
    if s.len() == 0 {
        0
    } else if s.last().0 < k {
        s.len() as int
    } else {
        insert_pos(s.drop_last(), k)
    }
}

proof fn lemma_insert_pos(s: Seq<(u32, EntryView)>, k: u32)
    requires
        oids_increasing(s),
    ensures
        0 <= insert_pos(s, k) <= s.len(),
        forall|j: int| 0 <= j < insert_pos(s, k) ==> #[trigger] s[j].0 < k,
        forall|j: int| insert_pos(s, k) <= j < s.len() ==> #[trigger] s[j].0 >= k,
    decreases s.len(),
{
    if s.len() > 0 {
        let t = s.drop_last();
        assert(oids_increasing(t)) by {
            assert forall|a: int, b: int| 0 <= a < b < t.len() implies #[trigger] t[a].0 < #[trigger] t[b].0 by {
                assert(s[a].0 < s[b].0);
            }
        }
        if s.last().0 < k {
            assert forall|j: int| 0 <= j < s.len() implies #[trigger] s[j].0 < k by {
                if j < s.len() - 1 {
                    assert(s[j].0 < s[s.len() - 1].0);
                }
            }
        } else {
            lemma_insert_pos(t, k);
            assert forall|j: int| 0 <= j < insert_pos(s, k) implies #[trigger] s[j].0 < k by {
                assert(t[j] == s[j]);
            }
            assert forall|j: int| insert_pos(s, k) <= j < s.len() implies #[trigger] s[j].0 >= k by {
                if j < s.len() - 1 {
                    assert(t[j] == s[j]);
                }
            }
        }
    }
}

/// Keys that a map hands out in increasing order increase as integers.
proof fn lemma_increasing_keys(keys: Seq<u32>)
    requires
        increasing_seq(keys),
    ensures
        forall|a: int, b: int| 0 <= a < b < keys.len() ==> #[trigger] keys[a] < #[trigger] keys[b],
{
    assert(vstd::laws_cmp::obeys_cmp::<u32>());
    assert forall|a: int, b: int| 0 <= a < b < keys.len() implies #[trigger] keys[a] < #[trigger] keys[b] by {
        assert(vstd::std_specs::cmp::OrdSpec::cmp_spec(&keys[a], &keys[b]) is Less);
    }
}

/// The entries of a map as text.
pub open spec fn map_view(m: Map<u32, TypeEntry>) -> Map<u32, EntryView> {
    m.map_values(|e: TypeEntry| e@)
}

/// Type entries by oid; its view lists them in increasing order of oid.
pub struct TypeTable {
    entries: BTreeMap<u32, TypeEntry>,
    order: Ghost<Seq<(u32, EntryView)>>,
}

impl View for TypeTable {
    type V = Seq<(u32, EntryView)>;

    closed spec fn view(&self) -> Seq<(u32, EntryView)> {
        self.order@
    }
}

impl TypeTable {
    /// The view lists, in increasing order of oid, exactly the entries that
    /// the map holds.
    #[verifier::type_invariant]
    spec fn consistent(self) -> bool {
        &&& oids_increasing(self.order@)
        &&& table_map(self.order@) == map_view(self.entries@)
    }

    /// The entries are in increasing order of oid.
    pub open spec fn wf(&self) -> bool {
        oids_increasing(self@)
    }

    /// The entries by oid.
    pub open spec fn map(&self) -> Map<u32, EntryView> {
        table_map(self@)
    }

    /// An empty table.
    pub fn new() -> (t: TypeTable)
        ensures
            t.wf(),
            t@ == Seq::<(u32, EntryView)>::empty(),
    {
        let entries: BTreeMap<u32, TypeEntry> = BTreeMap::new();
        let ghost order = Seq::<(u32, EntryView)>::empty();
        assert(table_map(order) =~= map_view(entries@));
        TypeTable { entries, order: Ghost(order) }
    }

    /// The number of entries.
    pub fn len(&self) -> (n: usize)
        ensures
            n == self@.len(),
    {
        proof {
            use_type_invariant(self);
            lemma_table_map_len(self@);
            assert(map_view(self.entries@).dom() =~= self.entries@.dom());
        }
        self.entries.len()
    }

    /// The entries, in increasing order of oid.
    pub fn entries(&self) -> (v: Vec<(u32, TypeEntry)>)
        ensures
            entries_view(v@) == self@,
    {
        proof {
            use_type_invariant(self);
        }
        let mut v: Vec<(u32, TypeEntry)> = Vec::new();
        let ghost seq = self.entries.iter().remaining();
        for kv in it: self.entries.iter()
            invariant
                it.seq() == seq,
                v.len() == it.index(),
                forall|j: int| 0 <= j < v.len() ==> #[trigger] v@[j].0 == *seq[j].0 && v@[j].1@ == (*seq[j].1)@,
        {
            let (k, e) = kv;
            v.push((*k, e.duplicate()));
        }
        let ghost w = entries_view(v@);
        proof {
            let m = self.entries@;
            assert(w.len() == seq.len());
            let keys = seq.map_values(|kv: (&u32, &TypeEntry)| *kv.0);
            lemma_increasing_keys(keys);
            assert forall|a: int, b: int| 0 <= a < b < w.len() implies #[trigger] w[a].0 < #[trigger] w[b].0 by {
                assert(seq.map_values(|kv: (&u32, &TypeEntry)| *kv.0)[a] == w[a].0);
                assert(seq.map_values(|kv: (&u32, &TypeEntry)| *kv.0)[b] == w[b].0);
            }
            assert forall|k: u32| #[trigger] has_oid(w, k) == map_view(m).contains_key(k) by {
                if has_oid(w, k) {
                    let j = choose|j: int| 0 <= j < w.len() && #[trigger] w[j].0 == k;
                    assert(m.contains_key(*seq[j].0));
                }
                if m.contains_key(k) {
                    assert(seq.contains((&k, &m[k])));
                    let j = choose|j: int| 0 <= j < seq.len() && seq[j] == (&k, &m[k]);
                    assert(w[j].0 == k);
                }
            }
            assert forall|k: u32| #[trigger] table_map(w).contains_key(k) implies table_map(w)[k] == map_view(m)[k] by {
                let j = choose|j: int| 0 <= j < w.len() && #[trigger] w[j].0 == k;
                lemma_table_map_index(w, j);
                assert(m[*seq[j].0] == *seq[j].1);
            }
            assert(table_map(w) =~= map_view(m));
            lemma_table_unique(w, self@);
        }
        v
    }

    /// Sets the entry of `oid`, in place of the one it had.
    pub fn insert(&mut self, oid: u32, entry: TypeEntry)
        ensures
            final(self).wf(),
            final(self).map() == old(self).map().insert(oid, entry@),
    {
        proof {
            use_type_invariant(&*self);
        }
        let mut taken = TypeTable::new();
        std::mem::swap(self, &mut taken);
        let TypeTable { mut entries, order } = taken;
        let ghost s = order@;
        let ghost e = entry@;
        let ghost before = entries@;
        entries.insert(oid, entry);
        let ghost t: Seq<(u32, EntryView)>;
        proof {
            lemma_insert_pos(s, oid);
            let i = insert_pos(s, oid);
            if i < s.len() && s[i].0 == oid {
                lemma_update_map(s, i, e);
                t = s.update(i, (oid, e));
            } else {
                assert forall|j: int| i <= j < s.len() implies #[trigger] s[j].0 > oid by {
                    if j > i {
                        assert(s[i].0 < s[j].0);
                    }
                }
                lemma_insert_map(s, i, oid, e);
                t = s.insert(i, (oid, e));
            }
            assert(map_view(entries@) =~= map_view(before).insert(oid, e));
        }
        *self = TypeTable { entries, order: Ghost(t) };
    }

    /// The entry of `oid`, if the table has one.
    pub fn get(&self, oid: u32) -> (r: Option<&TypeEntry>)
        ensures
            match r {
                Some(e) => self.map().contains_key(oid) && self.map()[oid] == e@,
                None => !self.map().contains_key(oid),
            },
    {
        proof {
            use_type_invariant(self);
        }
        self.entries.get(&oid)
    }

    /// A copy of the table.
    pub fn duplicate(&self) -> (r: TypeTable)
        ensures
            r.wf(),
            r@ == self@,
    {
        proof {
            use_type_invariant(self);
        }
        let v = self.entries();
        let mut t = TypeTable::new();
        let n = v.len();
        let mut i: usize = 0;
        while i < n
            invariant
                i <= n == v.len(),
                entries_view(v@) == self@,
                oids_increasing(self@),
                t.wf(),
                t.map() == table_map(self@.take(i as int)),
            decreases n - i,
        {
            let e = v[i].1.duplicate();
            t.insert(v[i].0, e);
            proof {
                let s = self@.take(i as int + 1);
                assert(self@[i as int] == (v@[i as int].0, v@[i as int].1@));
                assert(oids_increasing(s)) by {
                    assert forall|a: int, b: int| 0 <= a < b < s.len() implies #[trigger] s[a].0 < #[trigger] s[b].0 by {
                        assert(self@[a].0 < self@[b].0);
                    }
                }
                lemma_drop_last_map(s);
                assert(s.drop_last() =~= self@.take(i as int));
            }
            i = i + 1;
        }
        proof {
            use_type_invariant(&t);
            assert(self@.take(n as int) =~= self@);
            lemma_table_unique(t@, self@);
        }
        t
    }
}

} // verus!
