//! The persistence gateway: errors it reports, the rows it returns, and an
//! in-memory store that keeps rows in insertion order and assigns keys.
use vstd::prelude::*;

verus! {

/// A failure of the persistence gateway.
#[derive(Debug, Clone, Copy, PartialEq, Eq)]
pub enum StoreError {
    /// The store could not be reached or refused the query.
    Unavailable,
    /// Every key that the store can assign has been used.
    KeysExhausted,
}

/// A row as read from the store: its key and the entity's other fields.
#[derive(Debug, Clone, PartialEq, Eq)]
pub struct Record<V> {
    pub id: u64,
    pub fields: V,
}

/// Keys are unique, ascend in row order, and lie below the next key to assign.
pub open spec fn keys_ordered<V>(rows: Seq<Record<V>>, next_key: u64) -> bool {
    &&& 1 <= next_key
    &&& forall|i: int, j: int| 0 <= i < j < rows.len() ==> #[trigger] rows[i].id < #[trigger] rows[j].id
    &&& forall|i: int| 0 <= i < rows.len() ==> 1 <= #[trigger] rows[i].id < next_key
}

/// Some row has key `id`.
pub open spec fn has_key<V>(rows: Seq<Record<V>>, id: u64) -> bool {
    exists|i: int| 0 <= i < rows.len() && rows[i].id == id
}

/// The row with key `id`, if there is one.
pub open spec fn lookup<V>(rows: Seq<Record<V>>, id: u64) -> Option<Record<V>> {
    if has_key(rows, id) {
        Some(rows[choose|i: int| 0 <= i < rows.len() && rows[i].id == id])
    } else {
        None
    }
}

/// `after` is `before` with the row of key `id` taken out, the rest in order.
pub open spec fn removed_key<V>(before: Seq<Record<V>>, after: Seq<Record<V>>, id: u64) -> bool {
    exists|i: int| 0 <= i < before.len() && before[i].id == id && after == before.remove(i)
}

/// The row that an insert of `payload` writes when the store assigns `key`:
/// the payload's own key plays no part.
pub open spec fn staged<V>(payload: Record<V>, key: u64) -> Record<V> {
    Record { id: key, fields: payload.fields }
}

/// The first `limit` rows, or all of them where there are fewer.
pub open spec fn first_rows<V>(rows: Seq<Record<V>>, limit: usize) -> Seq<Record<V>> {
    if rows.len() <= limit {
        rows
    } else {
        rows.take(limit as int)
    }
}

/// With keys in ascending order, a row found with key `id` is the row of `id`.
pub proof fn lemma_lookup_at<V>(rows: Seq<Record<V>>, next_key: u64, i: int)
    requires
        keys_ordered(rows, next_key),
        0 <= i < rows.len(),
    ensures
        lookup(rows, rows[i].id) == Some(rows[i]),
{
    let id = rows[i].id;
    assert(has_key(rows, id));
    let k = choose|k: int| 0 <= k < rows.len() && rows[k].id == id;
    if k < i {
        assert(rows[k].id < rows[i].id);
    } else if i < k {
        assert(rows[i].id < rows[k].id);
    }
}

/// A store held in memory: rows in insertion order, and the next key to assign.
#[derive(Debug)]
pub struct MemoryStore<V> {
    rows: Vec<Record<V>>,
    next_key: u64,
}

impl<V> MemoryStore<V> {
    /// The rows, in insertion order.
    pub closed spec fn rows(&self) -> Seq<Record<V>> {
        self.rows@
    }

    /// The key that the next insert assigns.
    pub closed spec fn next_key(&self) -> u64 {
        self.next_key
    }

    pub open spec fn wf(&self) -> bool {
        keys_ordered(self.rows(), self.next_key())
    }

    /// An empty store whose first key is 1.
    pub fn new() -> (s: Self)
        ensures
            s.wf(),
            s.rows() == Seq::<Record<V>>::empty(),
            s.next_key() == 1,
    {
        MemoryStore { rows: Vec::new(), next_key: 1 }
    }

    /// The number of rows.
    pub fn len(&self) -> (r: usize)
        ensures
            r == self.rows().len(),
    {
        self.rows.len()
    }

    /// Up to `limit` rows, in insertion order.
    pub fn find_all(&self, limit: usize) -> (r: Vec<&Record<V>>)
        ensures
            r@.len() == first_rows(self.rows(), limit).len(),
            forall|i: int| 0 <= i < r@.len() ==> *r@[i] == first_rows(self.rows(), limit)[i],
    {
        let mut out: Vec<&Record<V>> = Vec::new();
        let mut i: usize = 0;
        while i < self.rows.len() && i < limit
            invariant
                i <= self.rows@.len(),
                i <= limit,
                out@.len() == i,
                forall|k: int| 0 <= k < i ==> *out@[k] == self.rows@[k],
            decreases self.rows@.len() - i,
        {
            out.push(&self.rows[i]);
            i = i + 1;
        }
        out
    }

    /// The row with key `id`, if there is one.
    pub fn find_by_key(&self, id: u64) -> (r: Option<&Record<V>>)
        requires
            self.wf(),
        ensures
            r is Some <==> has_key(self.rows(), id),
            r is Some ==> lookup(self.rows(), id) == Some(*r->Some_0),
    {
        let mut i: usize = 0;
        while i < self.rows.len()
            invariant
                i <= self.rows@.len(),
                keys_ordered(self.rows@, self.next_key),
                forall|k: int| 0 <= k < i ==> self.rows@[k].id != id,
            decreases self.rows@.len() - i,
        {
            if self.rows[i].id == id {
                proof {
                    lemma_lookup_at(self.rows@, self.next_key, i as int);
                }
                return Some(&self.rows[i]);
            }
            i = i + 1;
        }
        None
    }

    /// Writes a new row with `fields` under the next key, and returns that key.
    pub fn insert(&mut self, fields: V) -> (r: Result<u64, StoreError>)
        requires
            old(self).wf(),
        ensures
            final(self).wf(),
            old(self).next_key() < u64::MAX ==> {
                &&& r == Ok::<u64, StoreError>(old(self).next_key())
                &&& final(self).rows() == old(self).rows().push(
                    Record { id: old(self).next_key(), fields },
                )
                &&& final(self).next_key() == old(self).next_key() + 1
            },
            old(self).next_key() == u64::MAX ==> {
                &&& r == Err::<u64, StoreError>(StoreError::KeysExhausted)
                &&& final(self).rows() == old(self).rows()
                &&& final(self).next_key() == old(self).next_key()
            },
    {
        if self.next_key == u64::MAX {
            return Err(StoreError::KeysExhausted);
        }
        let id = self.next_key;
        self.rows.push(Record { id, fields });
        self.next_key = id + 1;
        Ok(id)
    }

    /// Removes the row with key `id`, and returns how many rows went (0 or 1).
    pub fn delete_by_key(&mut self, id: u64) -> (r: Result<u64, StoreError>)
        requires
            old(self).wf(),
        ensures
            final(self).wf(),
            final(self).next_key() == old(self).next_key(),
            has_key(old(self).rows(), id) ==> r == Ok::<u64, StoreError>(1) && removed_key(
                old(self).rows(),
                final(self).rows(),
                id,
            ),
            !has_key(old(self).rows(), id) ==> r == Ok::<u64, StoreError>(0) && final(self).rows()
                == old(self).rows(),
    {
        let mut i: usize = 0;
        while i < self.rows.len()
            invariant
                i <= self.rows@.len(),
                self.rows@ == old(self).rows@,
                self.next_key == old(self).next_key,
                keys_ordered(self.rows@, self.next_key),
                forall|k: int| 0 <= k < i ==> self.rows@[k].id != id,
            decreases self.rows@.len() - i,
        {
            if self.rows[i].id == id {
                let ghost before = self.rows@;
                self.rows.remove(i);
                proof {
                    assert(removed_key(before, self.rows@, id));
                    assert forall|a: int, b: int| 0 <= a < b < self.rows@.len() implies
                        #[trigger] self.rows@[a].id < #[trigger] self.rows@[b].id by {
                        if a >= i {
                            assert(before[a + 1].id < before[b + 1].id);
                        } else if b >= i {
                            assert(before[a].id < before[b + 1].id);
                        } else {
                            assert(before[a].id < before[b].id);
                        }
                    }
                    assert forall|a: int| 0 <= a < self.rows@.len() implies 1 <= #[trigger] self.rows@[a].id
                        < self.next_key by {
                        if a >= i {
                            assert(before[a + 1].id < self.next_key);
                        } else {
                            assert(before[a].id < self.next_key);
                        }
                    }
                }
                return Ok(1);
            }
            i = i + 1;
        }
        Ok(0)
    }
}

} // verus!
