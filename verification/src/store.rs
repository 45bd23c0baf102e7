//! What the site promises about its pages, stated over the table that the
//! store holds.
//!
//! The store itself is out of this library's hands. It is described here by
//! what it answers when nothing fails: a table is the sequence of its rows in
//! the order in which the store gives them, and each row has a key of its own.

use crate::ident::location_id_of;
use crate::model::Location;
use crate::pages::{listed, location_outcome, LocationTemplate};
use crate::query::{location_query_of, RowById, StoreError, INDEX_LIMIT};
use crate::render::page_reply;
use crate::reply::{ContentType, Fault, STATUS_INTERNAL_SERVER_ERROR, STATUS_OK};
use vstd::prelude::*;

verus! {

/// Whether no two rows of `table` share an id.
pub open spec fn keyed(table: Seq<Location>) -> bool {
    forall|i: int, j: int|
        0 <= i < j < table.len() ==> (#[trigger] table[i]).id != (#[trigger] table[j]).id
}

/// Whether some row of `table` has the id `id`.
pub open spec fn holds(table: Seq<Location>, id: i32) -> bool {
    exists|i: int| 0 <= i < table.len() && (#[trigger] table[i]).id == id
}

/// The first `limit` rows of `table`, or all of them where it has fewer.
pub open spec fn first_rows(table: Seq<Location>, limit: usize) -> Seq<Location> {
    if table.len() <= limit {
        table
    } else {
        table.take(limit as int)
    }
}

/// What a lookup by `id` gives on `table`.
pub open spec fn row_by_id(table: Seq<Location>, id: i32) -> Result<Location, StoreError> {
    if holds(table, id) {
        Ok(table[choose|i: int| 0 <= i < table.len() && (#[trigger] table[i]).id == id])
    } else {
        Err(StoreError::NotFound)
    }
}

/// A row that the table holds is shown under its id: a segment that names
/// the id asks for the lookup by that id, the lookup leads to the page of
/// exactly that row, with its name and its description, and the page, once
/// rendered, is sent with status 200 as HTML with the rendered text as its
/// body.
pub proof fn lemma_present_location_is_shown(
    table: Seq<Location>,
    at: int,
    segment: Seq<char>,
    html: Seq<char>,
)
    requires
        keyed(table),
        0 <= at < table.len(),
        location_id_of(segment) == Some(table[at].id),
    ensures
        location_query_of(segment) == Ok::<RowById, Fault>(RowById { id: table[at].id }),
        location_outcome(row_by_id(table, table[at].id)) == Ok::<LocationTemplate, Fault>(
            LocationTemplate { location: table[at] },
        ),
        location_outcome(row_by_id(table, table[at].id)) matches Ok(page)
            && page.location@.name == table[at]@.name
            && page.location@.description == table[at]@.description,
        page_reply(html).status == STATUS_OK,
        page_reply(html).content_type == ContentType::Html,
        page_reply(html).body == html,
{
    let id = table[at].id;
    assert(holds(table, id));
    let found = choose|i: int| 0 <= i < table.len() && (#[trigger] table[i]).id == id;
    assert(found == at) by {
        if found < at {
            assert(table[found].id != table[at].id);
        } else if at < found {
            assert(table[at].id != table[found].id);
        }
    }
}

/// An id that the table does not hold gets no page and no "not found"
/// either: the lookup ends in [`Fault::LocationMissing`], which is answered
/// with status 500 like every failure behind the request.
pub proof fn lemma_absent_location_is_a_server_fault(table: Seq<Location>, id: i32)
    requires
        !holds(table, id),
    ensures
        location_outcome(row_by_id(table, id)) == Err::<LocationTemplate, Fault>(
            Fault::LocationMissing,
        ),
        Fault::LocationMissing.reply().status == STATUS_INTERNAL_SERVER_ERROR,
        Fault::LocationMissing.reply().content_type == ContentType::PlainText,
{
}

/// The start page lists the first ten rows of a table of ten or more, and
/// all `n` rows, in order, of a table of `n` rows below ten.
pub proof fn lemma_index_lists_first_ten(table: Seq<Location>)
    ensures
        table.len() >= INDEX_LIMIT ==> listed(first_rows(table, INDEX_LIMIT)) == table.take(
            INDEX_LIMIT as int,
        ),
        table.len() >= INDEX_LIMIT ==> listed(first_rows(table, INDEX_LIMIT)).len()
            == INDEX_LIMIT,
        table.len() < INDEX_LIMIT ==> listed(first_rows(table, INDEX_LIMIT)) == table,
{
    if table.len() > INDEX_LIMIT {
        assert(table.take(INDEX_LIMIT as int).len() == INDEX_LIMIT);
    }
}

/// Whatever the store hands back, the start page lists at most ten rows: a
/// prefix of what was read.
pub proof fn lemma_index_never_lists_more_than_ten(rows: Seq<Location>)
    ensures
        listed(rows).len() <= INDEX_LIMIT,
        listed(rows).len() <= rows.len(),
        listed(rows) == rows.take(listed(rows).len() as int),
{
    assert(rows.take(rows.len() as int) =~= rows);
}

} // verus!
