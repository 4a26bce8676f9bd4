//! One entity table: rows with a process-local auto-incrementing
//! integer primary key, kept in insertion order.  Reads hand back the
//! stored row itself; no operation touches any other table.
use vstd::prelude::*;

use crate::error::StoreError;

verus! {

/// A row type with an integer primary key.
pub trait Keyed: Sized {
    /// The row's id.
    spec fn key(&self) -> i32;

    /// The row with its id replaced.
    spec fn spec_with_key(&self, k: i32) -> Self;

    /// Replacing the id yields a row with that id.
    proof fn lemma_with_key(&self, k: i32)
        ensures
            self.spec_with_key(k).key() == k,
    ;

    /// Reads the id.
    fn get_key(&self) -> (r: i32)
        ensures
            r == self.key(),
    ;

    /// Replaces the id.
    fn set_key(&mut self, k: i32)
        ensures
            *final(self) == old(self).spec_with_key(k),
    ;
}

/// An entity table: the auto-increment counter and the rows.
#[derive(Debug, Clone, PartialEq)]
pub struct Table<R> {
    pub next_id: i32,
    pub rows: Vec<R>,
}

impl<R: Keyed> Table<R> {
    /// Row ids are positive, below the counter, and unique.
    pub open spec fn wf(self) -> bool {
        &&& 1 <= self.next_id
        &&& forall|i: int|
            0 <= i < self.rows@.len() ==> 1 <= (#[trigger] self.rows@[i]).key() < self.next_id
        &&& forall|i: int, j: int|
            0 <= i < j < self.rows@.len() ==> self.rows@[i].key() != self.rows@[j].key()
    }

    /// Whether a row with this id is stored.
    pub open spec fn contains_key(self, k: i32) -> bool {
        exists|i: int| 0 <= i < self.rows@.len() && (#[trigger] self.rows@[i]).key() == k
    }

    /// The position of the row with this id (meaningful when
    /// `contains_key`).
    pub open spec fn key_index(self, k: i32) -> int {
        choose|i: int| 0 <= i < self.rows@.len() && (#[trigger] self.rows@[i]).key() == k
    }

    /// The stored row with this id.
    pub open spec fn spec_get(self, k: i32) -> Option<R> {
        if self.contains_key(k) {
            Some(self.rows@[self.key_index(k)])
        } else {
            None
        }
    }

    /// An empty table; ids start at 1.
    pub fn new() -> (r: Table<R>)
        ensures
            r.wf(),
            r.rows@ =~= Seq::<R>::empty(),
            r.next_id == 1,
    {
        Table { next_id: 1, rows: Vec::new() }
    }

    /// How many rows are stored.
    pub fn len(&self) -> (n: usize)
        ensures
            n == self.rows@.len(),
    {
        self.rows.len()
    }

    /// The position of the row with this id.
    #[verifier::loop_isolation(false)]
    fn find(&self, k: i32) -> (r: Option<usize>)
        requires
            self.wf(),
        ensures
            match r {
                Some(i) => self.contains_key(k) && i as int == self.key_index(k) && i
                    < self.rows@.len(),
                None => !self.contains_key(k),
            },
    {
        let mut i: usize = 0;
        while i < self.rows.len()
            invariant
                i <= self.rows@.len(),
                forall|j: int| 0 <= j < i ==> (#[trigger] self.rows@[j]).key() != k,
            decreases self.rows@.len() - i,
        {
            if self.rows[i].get_key() == k {
                proof {
                    assert(self.contains_key(k));
                    let ci = self.key_index(k);
                    assert(0 <= ci < self.rows@.len() && self.rows@[ci].key() == k);
                    assert(ci == i as int);
                }
                return Some(i);
            }
            i += 1;
        }
        None
    }

    /// Fetches the row with this id; `None` when the id is absent.
    pub fn get(&self, k: i32) -> (r: Option<&R>)
        requires
            self.wf(),
        ensures
            match r {
                Some(row) => self.spec_get(k) == Some(*row),
                None => !self.contains_key(k) && self.spec_get(k) is None,
            },
    {
        match self.find(k) {
            Some(i) => Some(&self.rows[i]),
            None => None,
        }
    }

    /// All rows, in insertion order.
    pub fn list(&self) -> (r: &Vec<R>)
        ensures
            r@ == self.rows@,
    {
        &self.rows
    }

    /// Stores a new row under the next free id and hands the id back.
    /// Every other row is untouched.
    pub fn insert(&mut self, row: R) -> (id: i32)
        requires
            old(self).wf(),
            old(self).next_id < i32::MAX,
        ensures
            final(self).wf(),
            id == old(self).next_id,
            final(self).next_id == old(self).next_id + 1,
            final(self).rows@ == old(self).rows@.push(row.spec_with_key(id)),
            final(self).contains_key(id),
            final(self).spec_get(id) == Some(row.spec_with_key(id)),
            forall|k: i32| k != id ==> final(self).spec_get(k) == old(self).spec_get(k),
            forall|k: i32| k != id ==> final(self).contains_key(k) == old(self).contains_key(k),
    {
        let id = self.next_id;
        let mut row = row;
        proof {
            row.lemma_with_key(id);
        }
        row.set_key(id);
        self.rows.push(row);
        self.next_id = id + 1;
        proof {
            let rs = self.rows@;
            let n = rs.len() - 1;
            assert(rs[n].key() == id);
            assert(forall|i: int| 0 <= i < n ==> rs[i] == old(self).rows@[i]);
            assert(self.contains_key(id));
            let ci = self.key_index(id);
            assert(0 <= ci < rs.len() && rs[ci].key() == id);
            assert(ci == n);
            assert forall|k: i32| k != id implies final(self).contains_key(k) == old(
                self,
            ).contains_key(k) && final(self).spec_get(k) == old(self).spec_get(k) by {
                if old(self).contains_key(k) {
                    let oi = old(self).key_index(k);
                    assert(0 <= oi < old(self).rows@.len() && old(self).rows@[oi].key() == k);
                    assert(rs[oi].key() == k);
                    assert(self.contains_key(k));
                    let ni = self.key_index(k);
                    assert(0 <= ni < rs.len() && rs[ni].key() == k);
                    assert(ni != n);
                    assert(ni == oi);
                } else {
                    if self.contains_key(k) {
                        let ni = self.key_index(k);
                        assert(0 <= ni < rs.len() && rs[ni].key() == k);
                        assert(ni != n);
                        assert(old(self).rows@[ni].key() == k);
                        assert(false);
                    }
                }
            }
        }
        id
    }

    /// Replaces the row with this id; the id itself is preserved.
    /// Fails with `NotFound` when the id is absent; every other row is
    /// untouched.
    pub fn update(&mut self, k: i32, row: R) -> (r: Result<(), StoreError>)
        requires
            old(self).wf(),
        ensures
            final(self).wf(),
            final(self).next_id == old(self).next_id,
            match r {
                Ok(()) => {
                    &&& old(self).contains_key(k)
                    &&& final(self).rows@ == old(self).rows@.update(
                        old(self).key_index(k),
                        row.spec_with_key(k),
                    )
                    &&& final(self).spec_get(k) == Some(row.spec_with_key(k))
                    &&& forall|k2: i32|
                        k2 != k ==> final(self).spec_get(k2) == old(self).spec_get(k2)
                    &&& forall|k2: i32|
                        k2 != k ==> final(self).contains_key(k2) == old(self).contains_key(k2)
                },
                Err(e) => e == StoreError::NotFound && !old(self).contains_key(k) && *final(self)
                    == *old(self),
            },
    {
        let i = match self.find(k) {
            None => {
                return Err(StoreError::NotFound);
            },
            Some(i) => i,
        };
        let mut row = row;
        proof {
            row.lemma_with_key(k);
        }
        row.set_key(k);
        let slot = &mut self.rows[i];
        *slot = row;
        proof {
            let rs = self.rows@;
            let oi = i as int;
            assert(rs == old(self).rows@.update(oi, rs[oi]));
            assert(rs[oi].key() == k);
            assert(self.contains_key(k));
            let ci = self.key_index(k);
            assert(0 <= ci < rs.len() && rs[ci].key() == k);
            assert(ci == oi);
            assert forall|k2: i32| k2 != k implies final(self).contains_key(k2) == old(
                self,
            ).contains_key(k2) && final(self).spec_get(k2) == old(self).spec_get(k2) by {
                if old(self).contains_key(k2) {
                    let o2 = old(self).key_index(k2);
                    assert(0 <= o2 < old(self).rows@.len() && old(self).rows@[o2].key() == k2);
                    assert(o2 != oi);
                    assert(rs[o2].key() == k2);
                    assert(self.contains_key(k2));
                    let n2 = self.key_index(k2);
                    assert(0 <= n2 < rs.len() && rs[n2].key() == k2);
                    assert(n2 != oi);
                    assert(n2 == o2);
                } else {
                    if self.contains_key(k2) {
                        let n2 = self.key_index(k2);
                        assert(0 <= n2 < rs.len() && rs[n2].key() == k2);
                        assert(n2 != oi);
                        assert(old(self).rows@[n2].key() == k2);
                        assert(false);
                    }
                }
            }
        }
        Ok(())
    }

    /// Removes the row with this id.  Fails with `NotFound` when the
    /// id is absent; every other row is untouched, and the id counter
    /// does not move backwards.
    pub fn delete(&mut self, k: i32) -> (r: Result<(), StoreError>)
        requires
            old(self).wf(),
        ensures
            final(self).wf(),
            final(self).next_id == old(self).next_id,
            match r {
                Ok(()) => {
                    &&& old(self).contains_key(k)
                    &&& final(self).rows@ == old(self).rows@.remove(old(self).key_index(k))
                    &&& !final(self).contains_key(k)
                    &&& forall|k2: i32|
                        k2 != k ==> final(self).spec_get(k2) == old(self).spec_get(k2)
                    &&& forall|k2: i32|
                        k2 != k ==> final(self).contains_key(k2) == old(self).contains_key(k2)
                },
                Err(e) => e == StoreError::NotFound && !old(self).contains_key(k) && *final(self)
                    == *old(self),
            },
    {
        let i = match self.find(k) {
            None => {
                return Err(StoreError::NotFound);
            },
            Some(i) => i,
        };
        self.rows.remove(i);
        proof {
            let rs = self.rows@;
            let oi = i as int;
            let or = old(self).rows@;
            assert(rs == or.remove(oi));
            assert(forall|j: int| 0 <= j < oi ==> rs[j] == or[j]);
            assert(forall|j: int| oi <= j < rs.len() ==> rs[j] == or[j + 1]);
            if self.contains_key(k) {
                let n2 = self.key_index(k);
                assert(0 <= n2 < rs.len() && rs[n2].key() == k);
                if n2 < oi {
                    assert(or[n2].key() == k);
                    assert(false);
                } else {
                    assert(or[n2 + 1].key() == k);
                    assert(false);
                }
            }
            assert forall|k2: i32| k2 != k implies final(self).contains_key(k2) == old(
                self,
            ).contains_key(k2) && final(self).spec_get(k2) == old(self).spec_get(k2) by {
                if old(self).contains_key(k2) {
                    let o2 = old(self).key_index(k2);
                    assert(0 <= o2 < or.len() && or[o2].key() == k2);
                    assert(o2 != oi);
                    if o2 < oi {
                        assert(rs[o2].key() == k2);
                        assert(self.contains_key(k2));
                    } else {
                        assert(rs[o2 - 1].key() == k2);
                        assert(self.contains_key(k2));
                    }
                    let n2 = self.key_index(k2);
                    assert(0 <= n2 < rs.len() && rs[n2].key() == k2);
                    if n2 < oi {
                        assert(or[n2].key() == k2);
                        assert(n2 == o2);
                    } else {
                        assert(or[n2 + 1].key() == k2);
                        assert(n2 + 1 == o2);
                    }
                } else {
                    if self.contains_key(k2) {
                        let n2 = self.key_index(k2);
                        assert(0 <= n2 < rs.len() && rs[n2].key() == k2);
                        if n2 < oi {
                            assert(or[n2].key() == k2);
                        } else {
                            assert(or[n2 + 1].key() == k2);
                        }
                        assert(false);
                    }
                }
            }
        }
        Ok(())
    }
}

} // verus!
