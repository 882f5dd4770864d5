//! In-memory store of pending credential bundles, keyed by relay key.
//!
//! `insert` never overwrites: a bundle stays exactly as first stored until
//! a `take` consumes it, and each bundle can be taken at most once.

use vstd::prelude::*;

use crate::protocol::ForwardCreds;

verus! {

/// No two entries share a relay key.
spec fn unique_keys(s: Seq<ForwardCreds>) -> bool {
    forall|i: int, j: int| 0 <= i < j < s.len() ==> s[i].key@ != s[j].key@
}

/// The mathematical contents of an entry list: relay key -> bundle.
spec fn assoc_map(s: Seq<ForwardCreds>) -> Map<Seq<char>, ForwardCreds>
    decreases s.len(),
{
    if s.len() == 0 {
        Map::empty()
    } else {
        assoc_map(s.drop_last()).insert(s.last().key@, s.last())
    }
}

proof fn lemma_assoc_contains(s: Seq<ForwardCreds>, k: Seq<char>)
    ensures
        assoc_map(s).contains_key(k) <==> exists|i: int| 0 <= i < s.len() && s[i].key@ == k,
    decreases s.len(),
{
    if s.len() > 0 {
        lemma_assoc_contains(s.drop_last(), k);
        if s.last().key@ == k {
            assert(s[s.len() - 1].key@ == k);
        } else {
            if exists|i: int| 0 <= i < s.len() && s[i].key@ == k {
                let i = choose|i: int| 0 <= i < s.len() && s[i].key@ == k;
                assert(s.drop_last()[i].key@ == k);
            }
        }
    }
}

proof fn lemma_assoc_index(s: Seq<ForwardCreds>, i: int)
    requires
        unique_keys(s),
        0 <= i < s.len(),
    ensures
        assoc_map(s).contains_key(s[i].key@),
        assoc_map(s)[s[i].key@] == s[i],
    decreases s.len(),
{
    if i < s.len() - 1 {
        assert(unique_keys(s.drop_last()));
        lemma_assoc_index(s.drop_last(), i);
        assert(s.drop_last()[i] == s[i]);
    }
}

proof fn lemma_assoc_remove(s: Seq<ForwardCreds>, i: int)
    requires
        unique_keys(s),
        0 <= i < s.len(),
    ensures
        assoc_map(s.remove(i)) == assoc_map(s).remove(s[i].key@),
    decreases s.len(),
{
    let k = s[i].key@;
    if i == s.len() - 1 {
        assert(s.remove(i) =~= s.drop_last());
        lemma_assoc_contains(s.drop_last(), k);
        assert(forall|j: int|
            0 <= j < s.len() - 1 ==> s.drop_last()[j].key@ != k) by {
            assert(forall|j: int| 0 <= j < s.len() - 1 ==> s.drop_last()[j] == s[j]);
        }
        assert(assoc_map(s).remove(k) =~= assoc_map(s.drop_last()));
    } else {
        let dl = s.drop_last();
        assert(unique_keys(dl));
        lemma_assoc_remove(dl, i);
        assert(s.remove(i).drop_last() =~= dl.remove(i));
        assert(s.remove(i).last() == s.last());
        assert(assoc_map(s.remove(i)) == assoc_map(dl.remove(i)).insert(s.last().key@, s.last()));
        assert(s.last().key@ != k);
        assert(assoc_map(s).remove(k) =~= assoc_map(dl).remove(k).insert(
            s.last().key@,
            s.last(),
        ));
    }
}

/// The registry of pending credential bundles.  Entries are added by the
/// relay server and consumed exactly once by the playback supervisor;
/// there is no eviction.
pub struct CredsRegistry {
    creds: Vec<ForwardCreds>,
}

impl View for CredsRegistry {
    type V = Map<Seq<char>, ForwardCreds>;

    closed spec fn view(&self) -> Map<Seq<char>, ForwardCreds> {
        assoc_map(self.creds@)
    }
}

impl Default for CredsRegistry {
    /// An empty registry.
    fn default() -> (r: Self)
        ensures
            r@ == Map::<Seq<char>, ForwardCreds>::empty(),
    {
        CredsRegistry { creds: Vec::new() }
    }
}

impl CredsRegistry {
    #[verifier::type_invariant]
    spec fn wf(self) -> bool {
        unique_keys(self.creds@)
    }

    /// Index of the entry stored under `key`, if any.
    fn find_index(&self, key: &String) -> (r: Option<usize>)
        ensures
            match r {
                Some(i) => i < self.creds@.len() && self.creds@[i as int].key@ == key@
                    && self@.contains_key(key@),
                None => !self@.contains_key(key@) && forall|j: int|
                    0 <= j < self.creds@.len() ==> self.creds@[j].key@ != key@,
            },
    {
        let n = self.creds.len();
        let mut i: usize = 0;
        while i < n
            invariant
                i <= n,
                n == self.creds@.len(),
                forall|j: int| 0 <= j < i ==> self.creds@[j].key@ != key@,
            decreases n - i,
        {
            if self.creds[i].key == *key {
                proof {
                    lemma_assoc_contains(self.creds@, key@);
                }
                return Some(i);
            }
            i = i + 1;
        }
        proof {
            lemma_assoc_contains(self.creds@, key@);
        }
        None
    }

    /// Store a bundle under its key unless that key is already present.
    /// Never overwrites: on a key collision the call returns false and the
    /// registry — in particular the bundle already stored under the key —
    /// is exactly as before.
    pub fn insert(&mut self, req: ForwardCreds) -> (r: bool)
        ensures
            r == !old(self)@.contains_key(req.key@),
            r ==> final(self)@ == old(self)@.insert(req.key@, req),
            !r ==> final(self)@ == old(self)@,
    {
        proof {
            use_type_invariant(&*self);
        }
        let key = req.key.clone();
        match self.find_index(&key) {
            Some(_) => false,
            None => {
                let ghost s0 = self.creds@;
                let mut entries: Vec<ForwardCreds> = Vec::new();
                core::mem::swap(&mut entries, &mut self.creds);
                entries.push(req);
                proof {
                    assert(entries@.drop_last() =~= s0);
                    assert(unique_keys(entries@));
                }
                self.creds = entries;
                true
            },
        }
    }

    /// Atomically remove and return the bundle stored under `key`.  Returns
    /// the very bundle `insert` stored; a second call with the same key
    /// finds nothing.
    pub fn take(&mut self, key: &str) -> (r: Option<ForwardCreds>)
        ensures
            match r {
                Some(c) => old(self)@.contains_key(key@) && c == old(self)@[key@]
                    && final(self)@ == old(self)@.remove(key@),
                None => !old(self)@.contains_key(key@) && final(self)@ == old(self)@,
            },
    {
        proof {
            use_type_invariant(&*self);
        }
        let owned = key.to_owned();
        match self.find_index(&owned) {
            Some(i) => {
                let ghost s0 = self.creds@;
                let mut entries: Vec<ForwardCreds> = Vec::new();
                core::mem::swap(&mut entries, &mut self.creds);
                let c = entries.remove(i);
                proof {
                    lemma_assoc_index(s0, i as int);
                    lemma_assoc_remove(s0, i as int);
                    assert(unique_keys(entries@)) by {
                        s0.remove_ensures(i as int);
                    }
                }
                self.creds = entries;
                Some(c)
            },
            None => None,
        }
    }
}

/// For two bundles under distinct keys, neither of them yet present, both
/// inserts succeed in either order and reach the same registry contents;
/// a take on either key then yields exactly the bundle stored under it,
/// and after that take the key is gone, so a second take yields nothing.
pub proof fn lemma_insert_take_distinct(
    m: Map<Seq<char>, ForwardCreds>,
    r1: ForwardCreds,
    r2: ForwardCreds,
)
    requires
        r1.key@ != r2.key@,
        !m.contains_key(r1.key@),
        !m.contains_key(r2.key@),
    ensures
        !m.insert(r1.key@, r1).contains_key(r2.key@),
        !m.insert(r2.key@, r2).contains_key(r1.key@),
        m.insert(r1.key@, r1).insert(r2.key@, r2) == m.insert(r2.key@, r2).insert(r1.key@, r1),
        m.insert(r1.key@, r1).insert(r2.key@, r2)[r1.key@] == r1,
        m.insert(r1.key@, r1).insert(r2.key@, r2)[r2.key@] == r2,
        !m.insert(r1.key@, r1).insert(r2.key@, r2).remove(r1.key@).contains_key(r1.key@),
        !m.insert(r1.key@, r1).insert(r2.key@, r2).remove(r2.key@).contains_key(r2.key@),
{
    assert(m.insert(r1.key@, r1).insert(r2.key@, r2) =~= m.insert(r2.key@, r2).insert(
        r1.key@,
        r1,
    ));
}

} // verus!
