//! The session registry: pending hosts keyed by join code.
//!
//! A registry maps each outstanding join code to the handle of the host that
//! registered it. The handle type is the caller's choice — an address, a
//! connection, an identifier — the registry only stores and returns it.
//! The abstract value of a registry is a `Map` from code bytes to handles;
//! at most one entry exists per code, an entry is created by `insert` and
//! destroyed exactly once by a successful `remove`.

use vstd::prelude::*;
use crate::code::JoinCode;

verus! {

/// The map described by a sequence of (code, handle) entries, later entries
/// winning (entries never share a code in a well-formed registry, so order
/// does not matter there).
pub open spec fn entries_map<H>(s: Seq<(JoinCode, H)>) -> Map<Seq<u8>, H>
    decreases s.len(),
{
    if s.len() == 0 {
        Map::empty()
    } else {
        entries_map(s.drop_last()).insert(s.last().0@, s.last().1)
    }
}

/// A key is in the map exactly when some entry carries it.
pub proof fn lemma_entries_map_contains<H>(s: Seq<(JoinCode, H)>, c: Seq<u8>)
    ensures
        entries_map(s).contains_key(c) <==> exists|i: int|
            0 <= i < s.len() && (#[trigger] s[i]).0@ == c,
    decreases s.len(),
{
    if s.len() > 0 {
        lemma_entries_map_contains(s.drop_last(), c);
        if s.last().0@ == c {
            assert(s[s.len() - 1].0@ == c);
        } else if entries_map(s).contains_key(c) {
            let i = choose|i: int| 0 <= i < s.len() - 1 && (#[trigger] s.drop_last()[i]).0@ == c;
            assert(s[i].0@ == c);
        } else if exists|i: int| 0 <= i < s.len() && (#[trigger] s[i]).0@ == c {
            let i = choose|i: int| 0 <= i < s.len() && (#[trigger] s[i]).0@ == c;
            assert(s.drop_last()[i].0@ == c);
        }
    }
}

/// Codes of distinct entries are pairwise distinct.
pub open spec fn codes_distinct<H>(s: Seq<(JoinCode, H)>) -> bool {
    forall|i: int, j: int|
        0 <= i < j < s.len() ==> (#[trigger] s[i]).0@ != (#[trigger] s[j]).0@
}

/// With pairwise-distinct codes, each entry is what the map holds at its code.
pub proof fn lemma_entries_map_index<H>(s: Seq<(JoinCode, H)>, i: int)
    requires
        codes_distinct(s),
        0 <= i < s.len(),
    ensures
        entries_map(s).contains_key(s[i].0@),
        entries_map(s)[s[i].0@] == s[i].1,
    decreases s.len(),
{
    if i == s.len() - 1 {
        assert(entries_map(s) == entries_map(s.drop_last()).insert(s.last().0@, s.last().1));
    } else {
        lemma_entries_map_index(s.drop_last(), i);
        assert(s.drop_last()[i] == s[i]);
        assert(s[i].0@ != s.last().0@);
    }
}

/// Removing the entry at position `i` removes exactly its code from the map.
pub proof fn lemma_entries_map_remove<H>(s: Seq<(JoinCode, H)>, i: int)
    requires
        codes_distinct(s),
        0 <= i < s.len(),
    ensures
        entries_map(s.remove(i)) == entries_map(s).remove(s[i].0@),
    decreases s.len(),
{
    lemma_entries_map_contains(s.drop_last(), s.last().0@);
    if i == s.len() - 1 {
        assert(s.remove(i) =~= s.drop_last());
        assert(!entries_map(s.drop_last()).contains_key(s.last().0@));
        assert(entries_map(s.remove(i)) =~= entries_map(s).remove(s[i].0@));
    } else {
        assert(s.remove(i).drop_last() =~= s.drop_last().remove(i));
        assert(s.remove(i).last() == s.last());
        assert(forall|k: int, l: int|
            0 <= k < l < s.drop_last().len() ==> (#[trigger] s.drop_last()[k]).0@ != (
            #[trigger] s.drop_last()[l]).0@);
        lemma_entries_map_remove(s.drop_last(), i);
        assert(s.drop_last()[i] == s[i]);
        assert(s[i].0@ != s.last().0@);
        assert(entries_map(s.remove(i)) == entries_map(s.drop_last().remove(i)).insert(
            s.last().0@,
            s.last().1,
        ));
        assert(entries_map(s.remove(i)) =~= entries_map(s).remove(s[i].0@));
    }
}

/// Registry of pending hosts. `H` is the peer endpoint handle type.
pub struct Registry<H> {
    pub entries: Vec<(JoinCode, H)>,
}

impl<H> View for Registry<H> {
    type V = Map<Seq<u8>, H>;

    open spec fn view(&self) -> Map<Seq<u8>, H> {
        entries_map(self.entries@)
    }
}

impl<H> Registry<H> {
    /// Internal entries, for reasoning about the registry's shape.
    pub open spec fn spec_entries(&self) -> Seq<(JoinCode, H)> {
        self.entries@
    }

    /// Well-formed: every stored code is valid and no two entries share one.
    pub open spec fn wf(&self) -> bool {
        &&& forall|i: int|
            0 <= i < self.entries@.len() ==> (#[trigger] self.entries@[i]).0.wf()
        &&& codes_distinct(self.entries@)
    }

    /// An empty registry.
    pub fn new() -> (r: Registry<H>)
        ensures
            r.wf(),
            r@ == Map::<Seq<u8>, H>::empty(),
            r.spec_entries().len() == 0,
    {
        Registry { entries: Vec::new() }
    }

    /// Whether a pending host is registered under `code`.
    pub fn contains(&self, code: &JoinCode) -> (r: bool)
        ensures
            r == self@.contains_key(code@),
    {
        let n = self.entries.len();
        let mut k: usize = 0;
        while k < n
            invariant
                n == self.entries@.len(),
                k <= n,
                forall|i: int| 0 <= i < k ==> (#[trigger] self.entries@[i]).0@ != code@,
            decreases n - k,
        {
            if bytes_equal(&self.entries[k].0.bytes, &code.bytes) {
                proof {
                    lemma_entries_map_contains(self.entries@, code@);
                }
                return true;
            }
            k = k + 1;
        }
        proof {
            lemma_entries_map_contains(self.entries@, code@);
        }
        false
    }

    /// Register a pending host under a code that is not yet taken.
    pub fn insert(&mut self, code: JoinCode, handle: H)
        requires
            old(self).wf(),
            code.wf(),
            !old(self)@.contains_key(code@),
        ensures
            final(self).wf(),
            final(self)@ == old(self)@.insert(code@, handle),
            final(self).spec_entries().len() == old(self).spec_entries().len() + 1,
    {
        proof {
            lemma_entries_map_contains(self.entries@, code@);
        }
        let ghost pre = self.entries@;
        self.entries.push((code, handle));
        proof {
            assert(self.entries@.drop_last() =~= pre);
        }
    }

    /// Remove and return the pending host registered under `code`, if any.
    /// The entry is gone afterwards: the same code cannot match twice.
    pub fn remove(&mut self, code: &JoinCode) -> (r: Option<H>)
        requires
            old(self).wf(),
        ensures
            final(self).wf(),
            match r {
                Some(handle) => {
                    &&& old(self)@.contains_key(code@)
                    &&& handle == old(self)@[code@]
                    &&& final(self)@ == old(self)@.remove(code@)
                },
                None => {
                    &&& !old(self)@.contains_key(code@)
                    &&& final(self)@ == old(self)@
                },
            },
    {
        let n = self.entries.len();
        let mut k: usize = 0;
        while k < n
            invariant
                *self == *old(self),
                self.wf(),
                n == self.entries@.len(),
                k <= n,
                forall|i: int| 0 <= i < k ==> (#[trigger] self.entries@[i]).0@ != code@,
            decreases n - k,
        {
            if bytes_equal(&self.entries[k].0.bytes, &code.bytes) {
                proof {
                    lemma_entries_map_index(self.entries@, k as int);
                    lemma_entries_map_remove(self.entries@, k as int);
                }
                let ghost pre = self.entries@;
                let entry = self.entries.remove(k);
                proof {
                    assert(self.entries@ =~= pre.remove(k as int));
                    assert(forall|i: int, j: int|
                        0 <= i < j < self.entries@.len() ==> (#[trigger] self.entries@[i]).0@ != (
                        #[trigger] self.entries@[j]).0@);
                }
                return Some(entry.1);
            }
            k = k + 1;
        }
        proof {
            lemma_entries_map_contains(self.entries@, code@);
        }
        None
    }
}

/// Byte-for-byte equality of two byte vectors.
fn bytes_equal(a: &Vec<u8>, b: &Vec<u8>) -> (r: bool)
    ensures
        r == (a@ == b@),
{
    if a.len() != b.len() {
        proof {
            assert(a@ != b@);
        }
        return false;
    }
    let n = a.len();
    let mut k: usize = 0;
    while k < n
        invariant
            n == a@.len(),
            n == b@.len(),
            k <= n,
            forall|i: int| 0 <= i < k ==> a@[i] == b@[i],
        decreases n - k,
    {
        if a[k] != b[k] {
            return false;
        }
        k = k + 1;
    }
    proof {
        assert(a@ =~= b@);
    }
    true
}

} // verus!
