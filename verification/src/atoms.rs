//! The atom cache: a monotonic, append-only memo of server-interned
//! property names.
//!
//! The display server assigns each property name a stable integer (an atom)
//! once per server lifetime, so a name's atom never changes and an entry,
//! once recorded, is never invalidated.  The cache therefore only ever
//! grows: a lookup that hits needs no server round trip, and a miss is
//! followed by exactly one intern request whose reply is recorded with
//! [`AtomManager::record`].

use vstd::prelude::*;

verus! {

/// One memoized name-to-atom pair.
#[derive(Debug, Clone, PartialEq, Eq)]
pub struct AtomEntry {
    /// The property name.
    pub name: String,
    /// The server-assigned atom.
    pub value: u32,
}

/// First value recorded under `name`, if any.
pub open spec fn spec_find(entries: Seq<AtomEntry>, name: Seq<char>) -> Option<u32>
    decreases entries.len(),
{
    if entries.len() == 0 {
        None
    } else if entries[0].name@ == name {
        Some(entries[0].value)
    } else {
        spec_find(entries.drop_first(), name)
    }
}

/// The cache after recording entry `e`: unchanged when its name is already
/// present, extended by `e` when it is not.
pub open spec fn spec_record(entries: Seq<AtomEntry>, e: AtomEntry) -> Seq<AtomEntry> {
    if spec_find(entries, e.name@) is Some {
        entries
    } else {
        entries + seq![e]
    }
}

/// Memoizing store of interned atoms.
pub struct AtomManager {
    entries: Vec<AtomEntry>,
}

impl AtomManager {
    /// The memoized entries, oldest first.
    pub closed spec fn view(&self) -> Seq<AtomEntry> {
        self.entries@
    }

    /// Every name appears at most once.
    pub open spec fn wf(&self) -> bool {
        forall|i: int, j: int|
            0 <= i < j < self@.len() ==> (#[trigger] self@[i]).name@ != (#[trigger] self@[j]).name@
    }

    /// An empty cache.
    pub fn new() -> (r: Self)
        ensures
            r@ =~= Seq::<AtomEntry>::empty(),
            r.wf(),
    {
        Self { entries: Vec::new() }
    }

    /// Look a name up without touching the server.  `None` means the caller
    /// must issue an intern request and record its reply.
    pub fn get(&self, name: &str) -> (r: Option<u32>)
        ensures
            r == spec_find(self@, name@),
    {
        let key: String = name.to_owned();
        proof {
            assert(self.entries@.skip(0) =~= self.entries@);
        }
        let mut i: usize = 0;
        while i < self.entries.len()
            invariant
                i <= self.entries@.len(),
                key@ == name@,
                spec_find(self.entries@.skip(i as int), name@) == spec_find(
                    self.entries@,
                    name@,
                ),
            decreases self.entries@.len() - i,
        {
            proof {
                assert(self.entries@.skip(i as int)[0] == self.entries@[i as int]);
                assert(self.entries@.skip(i as int).drop_first() =~= self.entries@.skip(i + 1));
            }
            if self.entries[i].name == key {
                return Some(self.entries[i].value);
            }
            i = i + 1;
        }
        proof {
            assert(self.entries@.skip(i as int) =~= Seq::<AtomEntry>::empty());
        }
        None
    }

    /// Record the server's reply to an intern request for `name`.  Returns
    /// the atom the cache now holds for the name: the previously recorded
    /// one when the name was already present — a later reply can never
    /// overwrite an earlier one — and `value` otherwise.
    pub fn record(&mut self, name: &str, value: u32) -> (r: u32)
        requires
            old(self).wf(),
        ensures
            final(self).wf(),
            final(self)@.len() >= old(self)@.len(),
            spec_find(old(self)@, name@) is Some ==> {
                &&& r == spec_find(old(self)@, name@)->Some_0
                &&& final(self)@ == old(self)@
            },
            spec_find(old(self)@, name@) is None ==> {
                &&& r == value
                &&& final(self)@.len() == old(self)@.len() + 1
                &&& final(self)@.drop_last() =~= old(self)@
                &&& final(self)@.last().name@ == name@
                &&& final(self)@.last().value == value
            },
            spec_find(final(self)@, name@) == Some(r),
    {
        match self.get(name) {
            Some(existing) => existing,
            None => {
                let ghost old_entries = self.entries@;
                let entry = AtomEntry { name: name.to_owned(), value };
                self.entries.push(entry);
                proof {
                    assert(self.entries@ =~= old_entries + seq![self.entries@.last()]);
                    lemma_find_append(old_entries, name@, value, self.entries@.last());
                    assert forall|i: int, j: int| 0 <= i < j < self.entries@.len() implies (
                    #[trigger] self.entries@[i]).name@ != (#[trigger] self.entries@[j]).name@ by {
                        if j == self.entries@.len() - 1 {
                            lemma_find_none_all_differ(old_entries, name@, i);
                        }
                    }
                }
                value
            },
        }
    }
}

/// When a name is absent, every entry's name differs from it.
proof fn lemma_find_none_all_differ(entries: Seq<AtomEntry>, name: Seq<char>, i: int)
    requires
        spec_find(entries, name) is None,
        0 <= i < entries.len(),
    ensures
        entries[i].name@ != name,
    decreases entries.len(),
{
    if i > 0 {
        lemma_find_none_all_differ(entries.drop_first(), name, i - 1);
        assert(entries.drop_first()[i - 1] == entries[i]);
    }
}

/// Appending an entry for an absent name makes that name resolve to the
/// appended value.
proof fn lemma_find_append(entries: Seq<AtomEntry>, name: Seq<char>, value: u32, e: AtomEntry)
    requires
        spec_find(entries, name) is None,
        e.name@ == name,
        e.value == value,
    ensures
        spec_find(entries + seq![e], name) == Some(value),
    decreases entries.len(),
{
    if entries.len() == 0 {
        assert((entries + seq![e])[0] == e);
    } else {
        assert((entries + seq![e])[0] == entries[0]);
        assert((entries + seq![e]).drop_first() =~= entries.drop_first() + seq![e]);
        lemma_find_append(entries.drop_first(), name, value, e);
    }
}

/// An entry appended at the back never changes the resolution of a name
/// that already resolved.
pub proof fn lemma_find_extend(
    before: Seq<AtomEntry>,
    after: Seq<AtomEntry>,
    name: Seq<char>,
)
    requires
        after.len() == before.len() + 1,
        after.drop_last() == before,
        spec_find(before, name) is Some,
    ensures
        spec_find(after, name) == spec_find(before, name),
    decreases before.len(),
{
    assert(after[0] == after.drop_last()[0]);
    if before[0].name@ == name {
    } else {
        assert(after.drop_first().drop_last() =~= before.drop_first());
        lemma_find_extend(before.drop_first(), after.drop_first(), name);
    }
}

/// Interning is memoized: once a name has been recorded, looking it up hits
/// the cache — so no further intern request is issued — and recording any
/// later reply under the same name leaves the cache unchanged.
pub proof fn lemma_atom_memoization(entries: Seq<AtomEntry>, e1: AtomEntry, e2: AtomEntry)
    requires
        spec_find(entries, e1.name@) is None,
        e2.name@ == e1.name@,
    ensures
        spec_find(spec_record(entries, e1), e1.name@) == Some(e1.value),
        spec_record(spec_record(entries, e1), e2) == spec_record(entries, e1),
{
    lemma_find_append(entries, e1.name@, e1.value, e1);
}

} // verus!
