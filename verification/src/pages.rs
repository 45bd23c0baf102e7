//! The two pages of the site: what each one shows, given what the store
//! answered.

use crate::model::Location;
use crate::query::{StoreError, INDEX_LIMIT};
use crate::reply::Fault;
use vstd::prelude::*;

verus! {

/// What the start page is rendered with: the rows to list, in order.
#[derive(Debug, PartialEq, Eq)]
pub struct IndexTemplate {
    pub locations: Vec<Location>,
}

/// What a details page is rendered with: the one row to show.
#[derive(Debug, PartialEq, Eq)]
pub struct LocationTemplate {
    pub location: Location,
}

/// The rows that the start page lists out of those that were read: all of
/// them up to [`INDEX_LIMIT`], and the first [`INDEX_LIMIT`] of more.
pub open spec fn listed(rows: Seq<Location>) -> Seq<Location> {
    if rows.len() <= INDEX_LIMIT {
        rows
    } else {
        rows.take(INDEX_LIMIT as int)
    }
}

/// What a details page shows for each answer of the store.
pub open spec fn location_outcome(fetched: Result<Location, StoreError>) -> Result<
    LocationTemplate,
    Fault,
> {
    match fetched {
        Ok(location) => Ok(LocationTemplate { location }),
        Err(StoreError::NotFound) => Err(Fault::LocationMissing),
        Err(StoreError::Unavailable) => Err(Fault::LocationUnavailable),
    }
}

/// The start page.
///
/// Takes what the store answered to [`crate::query::index_query`]. Rows that
/// were read are listed in the order in which they came, never more than
/// [`INDEX_LIMIT`] of them; no rows give a page with an empty list. A store
/// that failed gives [`Fault::LocationsUnavailable`] and no page.
pub fn index(loaded: Result<Vec<Location>, StoreError>) -> (page: Result<IndexTemplate, Fault>)
    ensures
        match loaded {
            Ok(rows) => page is Ok && page->Ok_0.locations@ == listed(rows@),
            Err(_) => page == Err::<IndexTemplate, Fault>(Fault::LocationsUnavailable),
        },
{
    match loaded {
        Ok(rows) => {
            let mut locations = rows;
            locations.truncate(INDEX_LIMIT);
            Ok(IndexTemplate { locations })
        },
        Err(_) => Err(Fault::LocationsUnavailable),
    }
}

/// A details page.
///
/// Takes what the store answered to the lookup that
/// [`crate::query::location_query`] asked for. The row that was found is
/// shown as it is. A missing row and a store that failed give no page:
/// [`Fault::LocationMissing`] and [`Fault::LocationUnavailable`], both of
/// which are answered with status 500.
pub fn location(fetched: Result<Location, StoreError>) -> (page: Result<LocationTemplate, Fault>)
    ensures
        page == location_outcome(fetched),
{
    match fetched {
        Ok(location) => Ok(LocationTemplate { location }),
        Err(StoreError::NotFound) => Err(Fault::LocationMissing),
        Err(StoreError::Unavailable) => Err(Fault::LocationUnavailable),
    }
}

} // verus!
