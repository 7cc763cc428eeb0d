//! The link store: one record per short id, an id is never overwritten, and
//! a lookup tells "no record" apart from every other failure.
use crate::response::ServiceError;
use vstd::prelude::*;
use vstd::string::StrSliceExecFns;

verus! {

/// The mapping a sequence of records denotes: later records win, though a
/// well-formed store never holds two records under one id.
pub open spec fn map_of(s: Seq<(String, String)>) -> Map<Seq<char>, Seq<char>>
    decreases s.len(),
{
    if s.len() == 0 {
        Map::empty()
    } else {
        map_of(s.drop_last()).insert(s.last().0@, s.last().1@)
    }
}

/// A key is in the mapping exactly when some record carries it.
proof fn lemma_map_of_contains(s: Seq<(String, String)>, k: Seq<char>)
    ensures
        map_of(s).contains_key(k) <==> exists|i: int| 0 <= i < s.len() && #[trigger] s[i].0@ == k,
    decreases s.len(),
{
    if s.len() > 0 {
        lemma_map_of_contains(s.drop_last(), k);
        if map_of(s).contains_key(k) {
            if s.last().0@ == k {
                assert(s[s.len() - 1].0@ == k);
            } else {
                let i = choose|i: int| 0 <= i < s.drop_last().len() && #[trigger] s.drop_last()[i].0@
                    == k;
                assert(s[i].0@ == k);
            }
        }
        if exists|i: int| 0 <= i < s.len() && #[trigger] s[i].0@ == k {
            let i = choose|i: int| 0 <= i < s.len() && #[trigger] s[i].0@ == k;
            if i < s.len() - 1 {
                assert(s.drop_last()[i].0@ == k);
            }
        }
    }
}

/// Under unique keys, the mapping sends each record's id to that record's URL.
proof fn lemma_map_of_value(s: Seq<(String, String)>, i: int)
    requires
        0 <= i < s.len(),
        forall|p: int, q: int| 0 <= p < q < s.len() ==> (#[trigger] s[p].0@) != (#[trigger] s[q].0@),
    ensures
        map_of(s).contains_key(s[i].0@),
        map_of(s)[s[i].0@] == s[i].1@,
    decreases s.len(),
{
    if i == s.len() - 1 {
        assert(map_of(s)[s.last().0@] == s.last().1@);
    } else {
        assert(s[i].0@ != s[s.len() - 1].0@);
        assert(s.drop_last()[i] == s[i]);
        lemma_map_of_value(s.drop_last(), i);
    }
}

/// Character-for-character string equality.
fn str_eq(a: &str, b: &str) -> (r: bool)
    ensures
        r == (a@ == b@),
{
    let n = a.unicode_len();
    if n != b.unicode_len() {
        return false;
    }
    let mut i: usize = 0;
    while i < n
        invariant
            n == a@.len(),
            n == b@.len(),
            0 <= i <= n,
            forall|j: int| 0 <= j < i ==> a@[j] == b@[j],
        decreases n - i,
    {
        if a.get_char(i) != b.get_char(i) {
            return false;
        }
        i = i + 1;
    }
    proof {
        assert(a@ =~= b@);
    }
    true
}

/// The persistence component: one record per id. The real deployment keeps
/// the table in a relational database whose primary key plays the role of
/// the uniqueness check; this store carries the same contract in memory.
pub struct LinkStore {
    entries: Vec<(String, String)>,
}

impl LinkStore {
    /// The id-to-URL mapping the store currently holds.
    pub closed spec fn contents(&self) -> Map<Seq<char>, Seq<char>> {
        map_of(self.entries@)
    }

    /// Well-formedness: no two records share an id.
    pub closed spec fn wf(&self) -> bool {
        forall|p: int, q: int|
            0 <= p < q < self.entries@.len() ==> (#[trigger] self.entries@[p].0@) != (
            #[trigger] self.entries@[q].0@)
    }

    /// An empty store.
    pub fn new() -> (s: Self)
        ensures
            s.wf(),
            s.contents() == Map::<Seq<char>, Seq<char>>::empty(),
    {
        LinkStore { entries: Vec::new() }
    }

    /// The position of the record carrying `id`, if one does.
    fn find_index(&self, id: &str) -> (r: Option<usize>)
        ensures
            r matches Some(i) ==> i < self.entries@.len() && self.entries@[i as int].0@ == id@,
            r is None ==> forall|j: int|
                0 <= j < self.entries@.len() ==> (#[trigger] self.entries@[j].0@) != id@,
    {
        let n = self.entries.len();
        let mut i: usize = 0;
        while i < n
            invariant
                n == self.entries@.len(),
                0 <= i <= n,
                forall|j: int| 0 <= j < i ==> (#[trigger] self.entries@[j].0@) != id@,
            decreases n - i,
        {
            if str_eq(self.entries[i].0.as_str(), id) {
                return Some(i);
            }
            i = i + 1;
        }
        None
    }

    /// Insert a new record. The insert is refused — distinctly, as a storage
    /// error, never as the client's fault — when a record under `id` already
    /// exists; nothing changes in that case.
    pub fn put(&mut self, id: String, url: String) -> (r: Result<(), ServiceError>)
        requires
            old(self).wf(),
        ensures
            final(self).wf(),
            r is Ok <==> !old(self).contents().contains_key(id@),
            r is Ok ==> final(self).contents() == old(self).contents().insert(id@, url@),
            r matches Err(e) ==> e == ServiceError::Storage && final(self).contents() == old(
                self,
            ).contents(),
    {
        proof {
            lemma_map_of_contains(self.entries@, id@);
        }
        match self.find_index(id.as_str()) {
            Some(_) => Err(ServiceError::Storage),
            None => {
                let ghost before = self.entries@;
                self.entries.push((id, url));
                proof {
                    assert(self.entries@.drop_last() =~= before);
                }
                Ok(())
            },
        }
    }

    /// Look up the URL stored under `id`. Absence is a distinguished result,
    /// so the HTTP layer can answer 404 rather than a generic failure.
    pub fn get(&self, id: &str) -> (r: Result<String, ServiceError>)
        requires
            self.wf(),
        ensures
            r is Ok <==> self.contents().contains_key(id@),
            r matches Ok(u) ==> self.contents()[id@] == u@,
            r matches Err(e) ==> e == ServiceError::NotFound,
    {
        proof {
            lemma_map_of_contains(self.entries@, id@);
        }
        match self.find_index(id) {
            Some(i) => {
                proof {
                    lemma_map_of_value(self.entries@, i as int);
                }
                Ok(self.entries[i].1.clone())
            },
            None => Err(ServiceError::NotFound),
        }
    }

    /// How many records the store holds.
    pub fn len(&self) -> (n: usize)
        requires
            self.wf(),
        ensures
            n == self.contents().dom().len(),
    {
        proof {
            lemma_map_of_len(self.entries@);
        }
        self.entries.len()
    }
}

/// Under unique keys, the mapping has exactly one entry per record.
proof fn lemma_map_of_len(s: Seq<(String, String)>)
    requires
        forall|p: int, q: int| 0 <= p < q < s.len() ==> (#[trigger] s[p].0@) != (#[trigger] s[q].0@),
    ensures
        map_of(s).dom().len() == s.len(),
        map_of(s).dom().finite(),
    decreases s.len(),
{
    if s.len() > 0 {
        lemma_map_of_len(s.drop_last());
        lemma_map_of_contains(s.drop_last(), s.last().0@);
        assert(!map_of(s.drop_last()).contains_key(s.last().0@)) by {
            if exists|i: int| 0 <= i < s.drop_last().len() && #[trigger] s.drop_last()[i].0@
                == s.last().0@ {
                let i = choose|i: int| 0 <= i < s.drop_last().len() && #[trigger] s.drop_last()[i].0@
                    == s.last().0@;
                assert(s[i].0@ == s[s.len() - 1].0@);
            }
        }
        assert(map_of(s).dom() =~= map_of(s.drop_last()).dom().insert(s.last().0@));
        vstd::set::axiom_set_insert_len(map_of(s.drop_last()).dom(), s.last().0@);
    } else {
        assert(map_of(s).dom() =~= Set::<Seq<char>>::empty());
    }
}

} // verus!
