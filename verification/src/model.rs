//! The one entity of the site: a location record.

use vstd::prelude::*;

verus! {

/// One row of the `locations` table.
///
/// The two timestamps are counted in microseconds since midnight of
/// 1 January 2000, as the store keeps them.
#[derive(Clone, Debug, PartialEq, Eq)]
pub struct Location {
    pub id: i32,
    pub name: String,
    pub description: String,
    pub created_at: i64,
    pub updated_at: i64,
}

/// What a [`Location`] holds, as mathematical values.
pub struct LocationView {
    pub id: int,
    pub name: Seq<char>,
    pub description: Seq<char>,
    pub created_at: int,
    pub updated_at: int,
}

impl View for Location {
    type V = LocationView;

    open spec fn view(&self) -> LocationView {
        LocationView {
            id: self.id as int,
            name: self.name@,
            description: self.description@,
            created_at: self.created_at as int,
            updated_at: self.updated_at as int,
        }
    }
}

} // verus!
