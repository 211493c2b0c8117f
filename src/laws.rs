//! Laws of the resource that relate several calls.
use vstd::prelude::*;
use crate::store::{has_key, keys_ordered, lemma_lookup_at, lookup, removed_key, staged, Record};

verus! {

/// A create followed by a read of the key it returned finds the created row:
/// its key is the returned key and its other fields are the payload's.
pub proof fn law_create_then_get<V>(rows: Seq<Record<V>>, next_key: u64, payload: Record<V>)
    requires
        keys_ordered(rows, next_key),
        next_key < u64::MAX,
    ensures
        keys_ordered(rows.push(staged(payload, next_key)), (next_key + 1) as u64),
        has_key(rows.push(staged(payload, next_key)), next_key),
        lookup(rows.push(staged(payload, next_key)), next_key) == Some(
            Record { id: next_key, fields: payload.fields },
        ),
{
    let after = rows.push(staged(payload, next_key));
    let n = (next_key + 1) as u64;
    assert forall|i: int, j: int| 0 <= i < j < after.len() implies #[trigger] after[i].id
        < #[trigger] after[j].id by {
        if j < rows.len() {
            assert(rows[i].id < rows[j].id);
        } else {
            assert(rows[i].id < next_key);
        }
    }
    assert forall|i: int| 0 <= i < after.len() implies 1 <= #[trigger] after[i].id < n by {
        if i < rows.len() {
            assert(rows[i].id < next_key);
        }
    }
    assert(after[rows.len() as int].id == next_key);
    lemma_lookup_at(after, n, rows.len() as int);
}

/// A delete removes the only row of its key: a delete that succeeded leaves
/// no row with that key, so a second delete of it, or a read, finds nothing.
pub proof fn law_delete_once<V>(
    rows: Seq<Record<V>>,
    next_key: u64,
    id: u64,
    after: Seq<Record<V>>,
)
    requires
        keys_ordered(rows, next_key),
        removed_key(rows, after, id),
    ensures
        has_key(rows, id),
        keys_ordered(after, next_key),
        !has_key(after, id),
        lookup(after, id) is None,
{
    let i = choose|i: int| 0 <= i < rows.len() && rows[i].id == id && after == rows.remove(i);
    assert forall|a: int, b: int| 0 <= a < b < after.len() implies #[trigger] after[a].id
        < #[trigger] after[b].id by {
        if a >= i {
            assert(rows[a + 1].id < rows[b + 1].id);
        } else if b >= i {
            assert(rows[a].id < rows[b + 1].id);
        } else {
            assert(rows[a].id < rows[b].id);
        }
    }
    assert forall|a: int| 0 <= a < after.len() implies 1 <= #[trigger] after[a].id < next_key by {
        if a >= i {
            assert(rows[a + 1].id < next_key);
        } else {
            assert(rows[a].id < next_key);
        }
    }
    assert forall|k: int| 0 <= k < after.len() implies #[trigger] after[k].id != id by {
        if k >= i {
            assert(rows[i].id < rows[k + 1].id);
        } else {
            assert(rows[k].id < rows[i].id);
        }
    }
}

/// A create's row does not depend on the key in its payload: two payloads
/// with the same other fields give the same row, under the store's key.
pub proof fn law_create_ignores_payload_key<V>(a: Record<V>, b: Record<V>, key: u64)
    requires
        a.fields == b.fields,
    ensures
        staged(a, key) == staged(b, key),
        staged(a, key).id == key,
{
}

} // verus!
