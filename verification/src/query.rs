//! The two reads that the site makes of its store.

use crate::ident::{has_sign, is_digit, location_id_of, parse_location_id};
use crate::reply::Fault;
use vstd::prelude::*;

verus! {

/// The most rows that the start page lists.
pub const INDEX_LIMIT: usize = 10;

/// A read of the first `limit` rows of the `locations` table, in the order in
/// which the store gives them, for whoever holds the connection to run.
#[derive(Clone, Copy, Debug, PartialEq, Eq, Structural)]
pub struct FirstRows {
    pub limit: usize,
}

/// A read of the one row of the `locations` table whose primary key is `id`,
/// for whoever holds the connection to run.
#[derive(Clone, Copy, Debug, PartialEq, Eq, Structural)]
pub struct RowById {
    pub id: i32,
}

/// Why the store gave no rows back.
#[derive(Clone, Copy, Debug, PartialEq, Eq, Structural)]
pub enum StoreError {
    /// The query ran and no row has the key that was asked for.
    NotFound,
    /// The connection or the query failed.
    Unavailable,
}

/// The read behind the start page: at most [`INDEX_LIMIT`] rows.
pub fn index_query() -> (query: FirstRows)
    ensures
        query == (FirstRows { limit: INDEX_LIMIT }),
{
    FirstRows { limit: INDEX_LIMIT }
}

/// The read that the path segment of a details page asks for, as a
/// mathematical function: a lookup by the id that the segment names, or the
/// fault that turns the request away where it names none.
pub open spec fn location_query_of(segment: Seq<char>) -> Result<RowById, Fault> {
    match location_id_of(segment) {
        Some(id) => Ok(RowById { id }),
        None => Err(Fault::BadLocationId),
    }
}

/// The read behind a details page.
///
/// A segment that does not name an id is turned away here, with
/// [`Fault::BadLocationId`], so that no query is ever made for it.
pub fn location_query(segment: &str) -> (query: Result<RowById, Fault>)
    ensures
        query == location_query_of(segment@),
{
    match parse_location_id(segment) {
        Some(id) => Ok(RowById { id }),
        None => Err(Fault::BadLocationId),
    }
}

/// A segment that is not a number never reaches the store: where any
/// character of it, but for a sign in front, is no decimal digit, no query
/// comes of it, and the request is answered with a status from 400 to 499.
pub proof fn lemma_non_numeric_segment_is_turned_away(segment: Seq<char>, at: int)
    requires
        0 <= at < segment.len(),
        !is_digit(segment[at]),
        at > 0 || !has_sign(segment),
    ensures
        location_query_of(segment) == Err::<RowById, Fault>(Fault::BadLocationId),
        400 <= Fault::BadLocationId.reply().status < 500,
{
    if has_sign(segment) {
        assert(!is_digit(segment.skip(1)[at - 1]));
    }
}

/// So is the empty segment, and so is a number that does not fit in 32 bits
/// with a sign: a request is let through to the store only for a segment that
/// names an id.
pub proof fn lemma_only_ids_reach_the_store(segment: Seq<char>)
    ensures
        location_query_of(segment) is Ok <==> location_id_of(segment) is Some,
        location_query_of(segment) is Err ==> location_query_of(segment)
            == Err::<RowById, Fault>(Fault::BadLocationId),
        location_id_of(Seq::<char>::empty()) is None,
{
}

} // verus!
