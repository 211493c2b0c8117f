//! Insert drafts: the mutable, column-wise staging of a new row.
use vstd::prelude::*;

verus! {

/// What an insert draft holds in one column.
#[derive(Debug, Clone, PartialEq, Eq)]
pub enum ActiveValue<V> {
    /// A value the caller set; it is written on insert.
    Assigned(V),
    /// A value read from storage and left as it was.
    Unchanged(V),
    /// No value: the store fills the column.
    NotSet,
}

/// A new row staged column by column, in the entity's column order.
#[derive(Debug, Clone, PartialEq, Eq)]
pub struct InsertDraft<V> {
    pub columns: Vec<ActiveValue<V>>,
}

impl<V> View for InsertDraft<V> {
    type V = Seq<ActiveValue<V>>;

    open spec fn view(&self) -> Seq<ActiveValue<V>> {
        self.columns@
    }
}

/// The columns of `cols`, with every column named in `keys` cleared.
pub open spec fn cleared_keys<V>(cols: Seq<ActiveValue<V>>, keys: Seq<usize>) -> Seq<
    ActiveValue<V>,
> {
    Seq::new(
        cols.len(),
        |i: int|
            if keys.contains(i as usize) {
                ActiveValue::NotSet
            } else {
                cols[i]
            },
    )
}

/// Stages every value of a record for insertion, column by column.
pub fn into_insert_draft<V>(values: Vec<V>) -> (r: InsertDraft<V>)
    ensures
        r@.len() == values@.len(),
        forall|i: int| 0 <= i < values@.len() ==> r@[i] == ActiveValue::Assigned(values@[i]),
{
    let ghost orig = values@;
    let mut rest = values;
    let mut columns: Vec<ActiveValue<V>> = Vec::new();
    while rest.len() > 0
        invariant
            columns@.len() + rest@.len() == orig.len(),
            rest@ == orig.skip(columns@.len() as int),
            forall|i: int| 0 <= i < columns@.len() ==> columns@[i] == ActiveValue::Assigned(orig[i]),
        decreases rest@.len(),
    {
        let v = rest.remove(0);
        columns.push(ActiveValue::Assigned(v));
    }
    InsertDraft { columns }
}

/// Marks every primary-key column of `draft` as not set, so that the store,
/// not the caller, assigns the new row's identity. `key_columns` lists the
/// positions of the key's columns (one for a simple key, several for a
/// composite one); a position past the draft's last column names nothing.
pub fn unset_primary_key<V>(draft: &mut InsertDraft<V>, key_columns: &Vec<usize>)
    ensures
        final(draft)@ == cleared_keys(old(draft)@, key_columns@),
{
    let ghost start = draft@;
    let mut j: usize = 0;
    while j < key_columns.len()
        invariant
            j <= key_columns@.len(),
            draft@ == cleared_keys(start, key_columns@.take(j as int)),
        decreases key_columns@.len() - j,
    {
        let c = key_columns[j];
        if c < draft.columns.len() {
            draft.columns.set(c, ActiveValue::NotSet);
        }
        proof {
            let done = key_columns@.take(j as int);
            let next = key_columns@.take(j + 1);
            assert(next == done.push(c));
            assert forall|u: usize| next.contains(u) <==> done.contains(u) || u == c by {
                if next.contains(u) {
                    let k = choose|k: int| 0 <= k < next.len() && next[k] == u;
                    if k < done.len() {
                        assert(done[k] == u);
                    }
                }
                if done.contains(u) {
                    let k = choose|k: int| 0 <= k < done.len() && done[k] == u;
                    assert(next[k] == u);
                }
                if u == c {
                    assert(next[j as int] == u);
                }
            }
            assert(draft@ =~= cleared_keys(start, next));
        }
        j = j + 1;
    }
    assert(key_columns@.take(key_columns@.len() as int) =~= key_columns@);
}

} // verus!
