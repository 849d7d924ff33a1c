use vstd::prelude::*;

use crate::record::{has_id, ids_unique, Record};

verus! {

/// Why a write to the store was refused.
#[derive(Debug, PartialEq, Eq, Structural)]
pub enum StoreError {
    /// A record with this id is already stored; ids are never overwritten.
    DuplicateId(u128),
}

/// The store after `insert(id, hash, now)` succeeded on `s`.
pub open spec fn inserted(s: Seq<Record>, id: u128, hash: String, now: i64) -> Seq<Record> {
    s.push(Record { id, hash, created_at: now })
}

/// The number of records a scan with this limit returns.
pub open spec fn scan_len(s: Seq<Record>, limit: nat) -> nat {
    if limit < s.len() {
        limit
    } else {
        s.len()
    }
}

/// What `scan(limit)` returns: the newest records first, at most `limit` of them.
pub open spec fn scanned(s: Seq<Record>, limit: nat) -> Seq<Record> {
    Seq::new(scan_len(s, limit), |i: int| s[s.len() - 1 - i])
}

/// The record is one of the two looked-up ids.
pub open spec fn is_either(a: u128, b: u128) -> spec_fn(Record) -> bool {
    |r: Record| r.id == a || r.id == b
}

/// What `lookup(a, b)` returns: the stored records with id `a` or `b`, in store order.
pub open spec fn looked_up(s: Seq<Record>, a: u128, b: u128) -> Seq<Record> {
    s.filter(is_either(a, b))
}

/// An in-memory record store. Records are kept in the order they came in,
/// and no two share an id.
pub struct MemoryStore {
    records: Vec<Record>,
}

impl View for MemoryStore {
    type V = Seq<Record>;

    closed spec fn view(&self) -> Seq<Record> {
        self.records@
    }
}

impl MemoryStore {
    /// The store's invariant: ids are unique.
    pub open spec fn wf(&self) -> bool {
        ids_unique(self@)
    }

    /// An empty store.
    pub fn new() -> (r: MemoryStore)
        ensures
            r.wf(),
            r@ == Seq::<Record>::empty(),
    {
        MemoryStore { records: Vec::new() }
    }

    /// The number of stored records.
    pub fn len(&self) -> (r: usize)
        ensures
            r == self@.len(),
    {
        self.records.len()
    }

    /// Whether a record with this id is stored.
    pub fn contains(&self, id: u128) -> (r: bool)
        ensures
            r == has_id(self@, id),
    {
        let mut i: usize = 0;
        while i < self.records.len()
            invariant
                i <= self.records@.len(),
                forall|k: int| 0 <= k < i ==> self.records@[k].id != id,
            decreases self.records@.len() - i,
        {
            if self.records[i].id == id {
                return true;
            }
            i = i + 1;
        }
        false
    }

    /// Stores a new record stamped with `now`. An id that is already stored
    /// is refused and the store is left as it was.
    pub fn insert(&mut self, id: u128, hash: String, now: i64) -> (r: Result<(), StoreError>)
        requires
            old(self).wf(),
        ensures
            final(self).wf(),
            r is Err <==> has_id(old(self)@, id),
            r is Err ==> r == Err::<(), StoreError>(StoreError::DuplicateId(id)) && final(self)@
                == old(self)@,
            r is Ok ==> final(self)@ == inserted(old(self)@, id, hash, now),
    {
        if self.contains(id) {
            return Err(StoreError::DuplicateId(id));
        }
        self.records.push(Record { id, hash, created_at: now });
        assert(ids_unique(self@)) by {
            assert forall|i: int, j: int| 0 <= i < j < self@.len() implies self@[i].id
                != self@[j].id by {
                if j == self@.len() - 1 {
                    assert(old(self)@[i] == self@[i]);
                }
            }
        }
        Ok(())
    }

    /// Up to `limit` records, the most recently stored first.
    pub fn scan(&self, limit: usize) -> (r: Vec<Record>)
        ensures
            r@ == scanned(self@, limit as nat),
            r@.len() <= limit,
    {
        let n = self.records.len();
        let count: usize = if limit < n {
            limit
        } else {
            n
        };
        let mut out: Vec<Record> = Vec::new();
        let mut i: usize = 0;
        while i < count
            invariant
                n == self@.len(),
                count == scan_len(self@, limit as nat),
                i <= count,
                out@ == scanned(self@, limit as nat).subrange(0, i as int),
            decreases count - i,
        {
            out.push(self.records[n - 1 - i].duplicate());
            i = i + 1;
        }
        assert(out@ == scanned(self@, limit as nat));
        out
    }

    /// The stored records whose id is `a` or `b`, in store order.
    pub fn lookup(&self, a: u128, b: u128) -> (r: Vec<Record>)
        ensures
            r@ == looked_up(self@, a, b),
    {
        let mut out: Vec<Record> = Vec::new();
        let mut i: usize = 0;
        while i < self.records.len()
            invariant
                i <= self@.len(),
                out@ == self@.subrange(0, i as int).filter(is_either(a, b)),
            decreases self@.len() - i,
        {
            let rec = &self.records[i];
            proof {
                assert(self@.subrange(0, i + 1).drop_last() == self@.subrange(0, i as int));
                reveal(Seq::filter);
            }
            if rec.id == a || rec.id == b {
                out.push(rec.duplicate());
            }
            i = i + 1;
        }
        assert(self@.subrange(0, self@.len() as int) == self@);
        out
    }
}

/// Every record that a lookup returns is stored and carries one of the two
/// ids, and no two of them share an id.
proof fn lemma_looked_up_from_store(s: Seq<Record>, a: u128, b: u128)
    requires
        ids_unique(s),
    ensures
        ids_unique(looked_up(s, a, b)),
        forall|k: int|
            0 <= k < looked_up(s, a, b).len() ==> {
                let id = #[trigger] looked_up(s, a, b)[k].id;
                (id == a || id == b) && has_id(s, id)
            },
    decreases s.len(),
{
    reveal(Seq::filter);
    if s.len() > 0 {
        let d = s.drop_last();
        assert forall|i: int, j: int| 0 <= i < j < d.len() implies d[i].id != d[j].id by {
            assert(d[i] == s[i] && d[j] == s[j]);
        }
        lemma_looked_up_from_store(d, a, b);
        let fd = looked_up(d, a, b);
        let f = looked_up(s, a, b);
        assert forall|k: int| 0 <= k < fd.len() implies has_id(s, #[trigger] fd[k].id) by {
            let i = choose|i: int| 0 <= i < d.len() && d[i].id == fd[k].id;
            assert(s[i] == d[i]);
        }
        if is_either(a, b)(s.last()) {
            assert(f == fd.push(s.last()));
            assert forall|k: int| 0 <= k < fd.len() implies fd[k].id != s.last().id by {
                let i = choose|i: int| 0 <= i < d.len() && d[i].id == fd[k].id;
                assert(s[i] == d[i]);
            }
            assert(has_id(s, s.last().id));
            assert forall|i: int, j: int| 0 <= i < j < f.len() implies f[i].id != f[j].id by {
                if j == f.len() - 1 {
                    assert(f[i] == fd[i]);
                } else {
                    assert(f[i] == fd[i] && f[j] == fd[j]);
                }
            }
            assert forall|k: int| 0 <= k < f.len() implies {
                let id = #[trigger] f[k].id;
                (id == a || id == b) && has_id(s, id)
            } by {
                if k < fd.len() {
                    assert(f[k] == fd[k]);
                }
            }
        } else {
            assert(f == fd);
        }
    }
}

/// After a successful insert, a scan with any limit of one or more returns
/// the new record.
pub proof fn lemma_insert_then_scan(s: Seq<Record>, id: u128, hash: String, now: i64, n: nat)
    requires
        n >= 1,
    ensures
        has_id(scanned(inserted(s, id, hash, now), n), id),
{
    let t = inserted(s, id, hash, now);
    assert(scanned(t, n)[0] == t[t.len() - 1]);
}

/// A lookup of `a` and `b` returns exactly those of the two ids that are
/// stored, each once: nothing when neither is stored, both when both are.
pub proof fn lemma_lookup_exact(s: Seq<Record>, a: u128, b: u128)
    requires
        ids_unique(s),
    ensures
        forall|x: u128|
            #[trigger] has_id(looked_up(s, a, b), x) <==> ((x == a || x == b) && has_id(s, x)),
        ids_unique(looked_up(s, a, b)),
        !has_id(s, a) && !has_id(s, b) ==> looked_up(s, a, b).len() == 0,
{
    lemma_looked_up_from_store(s, a, b);
    broadcast use vstd::seq_lib::group_filter_ensures;
    let f = looked_up(s, a, b);
    assert forall|x: u128| has_id(f, x) <==> ((x == a || x == b) && has_id(s, x)) by {
        if (x == a || x == b) && has_id(s, x) {
            let i = choose|i: int| 0 <= i < s.len() && s[i].id == x;
            assert(f.contains(s[i]));
            let k = choose|k: int| 0 <= k < f.len() && f[k] == s[i];
            assert(f[k].id == x);
        }
        if has_id(f, x) {
            let k = choose|k: int| 0 <= k < f.len() && f[k].id == x;
            assert(f[k].id == x);
        }
    }
    if !has_id(s, a) && !has_id(s, b) && f.len() > 0 {
        let id = f[0].id;
        assert((id == a || id == b) && has_id(s, id));
    }
}

} // verus!
