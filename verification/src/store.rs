//! The data accessor: two read-only queries against the current state of the
//! `cats` table, modelled as a sequence of rows in the store's order.
//!
//! The real store lives outside the process; the caller observes its state at
//! query time and hands it in as plain rows. `list_cats` returns at most
//! [`LIST_LIMIT`] rows in the store's order, and `get_cat_by_id` returns the
//! first row whose id matches, or reports that none does.

use vstd::prelude::*;

use crate::models::Cat;

verus! {

/// Why a query or a connection acquisition failed.
#[derive(Debug)]
pub enum AccessError {
    /// No connection could be obtained: the pool is saturated or the store
    /// is unreachable.
    PoolExhaustedOrUnavailable,
    /// The lookup matched zero rows.
    NotFound,
    /// Any other underlying I/O or decoding failure.
    QueryError,
}

/// Most rows a list query returns.
pub const LIST_LIMIT: usize = 100;

/// What the bounded list query yields: the whole table when it has at most
/// [`LIST_LIMIT`] rows, else its first [`LIST_LIMIT`] rows, order kept.
pub open spec fn list_cats_spec(table: Seq<Cat>) -> Seq<Cat> {
    if table.len() <= LIST_LIMIT {
        table
    } else {
        table.take(LIST_LIMIT as int)
    }
}

/// What the lookup query yields: the first row whose id matches, if any.
pub open spec fn lookup_cat_spec(table: Seq<Cat>, id: int) -> Option<Cat>
    decreases table.len(),
{
    if table.len() == 0 {
        None
    } else if table[0]@.id == id {
        Some(table[0])
    } else {
        lookup_cat_spec(table.skip(1), id)
    }
}

/// Lists at most [`LIST_LIMIT`] rows of the table, in the store's order.
/// An empty table yields an empty list, not an error.
pub fn list_cats(table: &Vec<Cat>) -> (r: Vec<Cat>)
    ensures
        r@ == list_cats_spec(table@),
        r@.len() <= LIST_LIMIT,
{
    let n = if table.len() <= LIST_LIMIT {
        table.len()
    } else {
        LIST_LIMIT
    };
    let mut out: Vec<Cat> = Vec::new();
    let mut i: usize = 0;
    while i < n
        invariant
            i <= n,
            n <= table@.len(),
            out@ == table@.take(i as int),
        decreases n - i,
    {
        out.push(table[i].clone());
        proof {
            assert(table@.take(i + 1 as int) =~= table@.take(i as int).push(table@[i as int]));
        }
        i += 1;
    }
    proof {
        if table@.len() <= LIST_LIMIT {
            assert(table@.take(table@.len() as int) =~= table@);
        }
    }
    out
}

/// Fetches the row with the given id, or reports [`AccessError::NotFound`]
/// when no row matches.
pub fn get_cat_by_id(table: &Vec<Cat>, id: i32) -> (r: Result<Cat, AccessError>)
    ensures
        match r {
            Ok(c) => lookup_cat_spec(table@, id as int) == Some(c),
            Err(e) => e == AccessError::NotFound && lookup_cat_spec(table@, id as int) is None,
        },
{
    let mut i: usize = 0;
    proof {
        assert(table@.skip(0) =~= table@);
    }
    while i < table.len()
        invariant
            i <= table@.len(),
            lookup_cat_spec(table@, id as int) == lookup_cat_spec(
                table@.skip(i as int),
                id as int,
            ),
        decreases table@.len() - i,
    {
        if table[i].id == id {
            proof {
                assert(table@.skip(i as int)[0] == table@[i as int]);
            }
            return Ok(table[i].clone());
        }
        proof {
            assert(table@.skip(i as int)[0] == table@[i as int]);
            assert(table@.skip(i as int).skip(1) =~= table@.skip(i + 1 as int));
        }
        i += 1;
    }
    proof {
        assert(table@.skip(table@.len() as int) =~= Seq::<Cat>::empty());
    }
    Err(AccessError::NotFound)
}

/// The lookup finds a row whenever one with the requested id is present,
/// and the row it yields carries that id.
pub proof fn lemma_lookup_finds_present_id(table: Seq<Cat>, id: int)
    requires
        exists|i: int| 0 <= i < table.len() && table[i]@.id == id,
    ensures
        lookup_cat_spec(table, id) matches Some(c) && c@.id == id,
    decreases table.len(),
{
    if table[0]@.id == id {
    } else {
        let i = choose|i: int| 0 <= i < table.len() && table[i]@.id == id;
        assert(table.skip(1)[i - 1] == table[i]);
        lemma_lookup_finds_present_id(table.skip(1), id);
    }
}

/// The lookup yields nothing exactly when no row carries the requested id.
pub proof fn lemma_lookup_none_iff_absent(table: Seq<Cat>, id: int)
    ensures
        lookup_cat_spec(table, id) is None <==> (forall|i: int|
            0 <= i < table.len() ==> table[i]@.id != id),
    decreases table.len(),
{
    if table.len() == 0 {
    } else if table[0]@.id == id {
    } else {
        lemma_lookup_none_iff_absent(table.skip(1), id);
        assert forall|i: int| 0 <= i < table.skip(1).len() implies table.skip(1)[i] == table[
            i + 1
        ] by {}
        if lookup_cat_spec(table, id) is None {
            assert forall|i: int| 0 <= i < table.len() implies table[i]@.id != id by {
                if i >= 1 {
                    assert(table.skip(1)[i - 1] == table[i]);
                }
            }
        }
    }
}

/// The list query never yields more than [`LIST_LIMIT`] rows, and yields
/// exactly [`LIST_LIMIT`] once the table holds at least that many.
pub proof fn lemma_list_is_bounded(table: Seq<Cat>)
    ensures
        list_cats_spec(table).len() <= LIST_LIMIT,
        list_cats_spec(table).len() == if table.len() <= LIST_LIMIT {
            table.len()
        } else {
            LIST_LIMIT as nat
        },
        list_cats_spec(table) == table.take(list_cats_spec(table).len() as int),
{
    if table.len() <= LIST_LIMIT {
        assert(table.take(table.len() as int) =~= table);
    }
}

} // verus!
