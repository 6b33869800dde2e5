//! The registry table as a mathematical sequence of rows, the four
//! operations on it, and the laws that combine them.
//!
//! A row is a pair `(name, server)`. Rows are kept in insertion order, which
//! is the order in which a lookup visits them.
//!
//! This is a description of what the four SQL statements of `store` are
//! meant to do to the table in SQLite. No executable contract mentions it:
//! the database lives on disk, so `store::run_op` promises nothing about its
//! contents, and the laws here speak of the model, not of `run_op` or
//! `dispatch::perform`.

use vstd::prelude::*;

verus! {

/// One row of the registry: a short name bound to the path of an executable.
#[derive(Debug)]
pub struct ConfigEntry {
    pub name: String,
    pub server: String,
}

/// One statement against the registry table.
#[derive(Debug)]
pub enum StoreOp {
    /// Append a row.
    Insert { name: String, server: String },
    /// Set `server` on every row with this `name`.
    Update { name: String, server: String },
    /// Read the first row with this `name`.
    Lookup { name: String },
    /// Remove every row with this `name`.
    Delete { name: String },
}

/// A row as a pair of character sequences.
pub type Row = (Seq<char>, Seq<char>);

/// The table after `op`.
pub open spec fn apply(op: StoreOp, t: Seq<Row>) -> Seq<Row> {
    match op {
        StoreOp::Insert { name, server } => t.push((name@, server@)),
        StoreOp::Update { name, server } => update_rows(t, name@, server@),
        StoreOp::Lookup { .. } => t,
        StoreOp::Delete { name } => t.filter(|r: Row| r.0 != name@),
    }
}

/// Every row named `name` with its server replaced by `server`.
pub open spec fn update_rows(t: Seq<Row>, name: Seq<char>, server: Seq<char>) -> Seq<Row> {
    t.map_values(|r: Row| if r.0 == name { (r.0, server) } else { r })
}

/// The server of the first row, in table order, whose name is `name`.
pub open spec fn first_match(t: Seq<Row>, name: Seq<char>) -> Option<Seq<char>>
    decreases t.len(),
{
    if t.len() == 0 {
        None
    } else if t[0].0 == name {
        Some(t[0].1)
    } else {
        first_match(t.drop_first(), name)
    }
}

/// `first_match` finds a row exactly when some row carries the name.
pub proof fn lemma_first_match_none(t: Seq<Row>, name: Seq<char>)
    ensures
        first_match(t, name) is None <==> (forall|i: int| 0 <= i < t.len() ==> #[trigger] t[i].0 != name),
    decreases t.len(),
{
    if t.len() > 0 {
        lemma_first_match_none(t.drop_first(), name);
        if first_match(t, name) is None {
            assert forall|i: int| 0 <= i < t.len() implies #[trigger] t[i].0 != name by {
                if i > 0 {
                    assert(t[i] == t.drop_first()[i - 1]);
                }
            }
        } else if t[0].0 != name {
            let j = choose|j: int| 0 <= j < t.drop_first().len() && #[trigger] t.drop_first()[j].0 == name;
            assert(t[j + 1].0 == name);
        }
    }
}

/// Appending rows after a match does not change which row is found first.
pub proof fn lemma_first_match_append(t: Seq<Row>, u: Seq<Row>, name: Seq<char>)
    requires
        first_match(t, name) is Some,
    ensures
        first_match(t + u, name) == first_match(t, name),
    decreases t.len(),
{
    if t[0].0 != name {
        assert((t + u).drop_first() == t.drop_first() + u);
        lemma_first_match_append(t.drop_first(), u, name);
    }
}

/// Appending a row with a name that no earlier row has makes it the first match.
pub proof fn lemma_first_match_push(t: Seq<Row>, r: Row)
    ensures
        first_match(t.push(r), r.0) == match first_match(t, r.0) {
            Some(s) => Some(s),
            None => Some(r.1),
        },
    decreases t.len(),
{
    if t.len() == 0 {
        assert(t.push(r)[0] == r);
    } else if t[0].0 != r.0 {
        assert(t.push(r).drop_first() == t.drop_first().push(r));
        lemma_first_match_push(t.drop_first(), r);
    }
}

/// After an entry is added under `name`, a lookup of `name` finds the
/// earliest row with that name: the new one when the name was not yet in
/// the table, the one that was there before otherwise.
pub proof fn law_add_then_lookup(t: Seq<Row>, name: String, server: String)
    ensures
        first_match(apply(StoreOp::Insert { name, server }, t), name@) == match first_match(
            t,
            name@,
        ) {
            Some(s) => Some(s),
            None => Some(server@),
        },
{
    lemma_first_match_push(t, (name@, server@));
}

/// An update of `name` right after an entry was added under `name` makes a
/// lookup of `name` find the new server, not the added one.
pub proof fn law_update_after_add(t: Seq<Row>, name: String, file: String, server: String)
    ensures
        first_match(
            apply(
                StoreOp::Update { name: name, server: server },
                apply(StoreOp::Insert { name: name, server: file }, t),
            ),
            name@,
        ) == Some(server@),
{
    let t1 = apply(StoreOp::Insert { name: name, server: file }, t);
    let t2 = apply(StoreOp::Update { name: name, server: server }, t1);
    lemma_first_match_push(t, (name@, file@));
    lemma_update_first_match(t1, name@, server@);
}

proof fn lemma_update_first_match(t: Seq<Row>, name: Seq<char>, server: Seq<char>)
    requires
        first_match(t, name) is Some,
    ensures
        first_match(update_rows(t, name, server), name) == Some(server),
    decreases t.len(),
{
    let m = update_rows(t, name, server);
    if t[0].0 != name {
        assert(m.drop_first() == update_rows(t.drop_first(), name, server));
        lemma_update_first_match(t.drop_first(), name, server);
    }
}

/// After a delete of `name`, whatever was added before, a lookup of `name`
/// finds nothing, and the rows under other names stay as they were.
pub proof fn law_delete_then_lookup(t: Seq<Row>, name: String)
    ensures
        first_match(apply(StoreOp::Delete { name }, t), name@) is None,
        apply(StoreOp::Delete { name }, t) == t.filter(|r: Row| r.0 != name@),
{
    let d = t.filter(|r: Row| r.0 != name@);
    assert forall|i: int| 0 <= i < d.len() implies #[trigger] d[i].0 != name@ by {
        t.lemma_filter_pred(|r: Row| r.0 != name@, i);
    }
    lemma_first_match_none(d, name@);
}

/// Adding under a name that is already present adds one more row and keeps
/// reporting the earliest one; a single delete then removes every row under
/// that name.
pub proof fn law_repeated_add(t: Seq<Row>, name: String, first: String, second: String)
    ensures
        apply(StoreOp::Insert { name: name, server: second }, apply(StoreOp::Insert { name: name, server: first }, t)).len()
            == t.len() + 2,
        first_match(
            apply(StoreOp::Insert { name: name, server: second }, apply(StoreOp::Insert { name: name, server: first }, t)),
            name@,
        ) == first_match(apply(StoreOp::Insert { name: name, server: first }, t), name@),
        first_match(
            apply(
                StoreOp::Delete { name: name },
                apply(StoreOp::Insert { name: name, server: second }, apply(StoreOp::Insert { name: name, server: first }, t)),
            ),
            name@,
        ) is None,
{
    let t1 = apply(StoreOp::Insert { name: name, server: first }, t);
    let t2 = apply(StoreOp::Insert { name: name, server: second }, t1);
    lemma_first_match_push(t, (name@, first@));
    lemma_first_match_push(t1, (name@, second@));
    law_delete_then_lookup(t2, name);
}

} // verus!
