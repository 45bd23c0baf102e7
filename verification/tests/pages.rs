use location_pages::{index, location, Fault, IndexTemplate, Location, LocationTemplate, StoreError};

fn row(id: i32) -> Location {
    Location {
        id,
        name: format!("Place {}", id),
        description: format!("The place with the number {}", id),
        created_at: 700_000_000_000_000 + id as i64,
        updated_at: 710_000_000_000_000 + id as i64,
    }
}

fn rows(count: i32) -> Vec<Location> {
    (1..=count).map(row).collect()
}

#[test]
fn the_start_page_of_an_empty_table_has_an_empty_list() {
    let page = index(Ok(Vec::new()));
    assert_eq!(page, Ok(IndexTemplate { locations: Vec::new() }));
}

#[test]
fn the_start_page_lists_every_row_of_a_short_table() {
    for count in 1..10 {
        let page = index(Ok(rows(count))).unwrap();
        assert_eq!(page.locations.len(), count as usize);
        assert_eq!(page.locations, rows(count));
    }
}

#[test]
fn the_start_page_lists_exactly_ten_of_ten() {
    let page = index(Ok(rows(10))).unwrap();
    assert_eq!(page.locations, rows(10));
}

#[test]
fn the_start_page_lists_the_first_ten_of_more() {
    for count in [11, 12, 25, 1000] {
        let page = index(Ok(rows(count))).unwrap();
        assert_eq!(page.locations.len(), 10);
        assert_eq!(page.locations, rows(10));
    }
}

#[test]
fn the_start_page_keeps_the_order_of_the_store() {
    let shuffled = vec![row(3), row(1), row(2)];
    let page = index(Ok(shuffled)).unwrap();
    let ids: Vec<i32> = page.locations.iter().map(|location| location.id).collect();
    assert_eq!(ids, vec![3, 1, 2]);
}

#[test]
fn the_start_page_fails_fast_when_the_store_fails() {
    assert_eq!(index(Err(StoreError::Unavailable)), Err(Fault::LocationsUnavailable));
    assert_eq!(index(Err(StoreError::NotFound)), Err(Fault::LocationsUnavailable));
}

#[test]
fn a_details_page_shows_the_row_that_was_found() {
    let page = location(Ok(row(7)));
    assert_eq!(page, Ok(LocationTemplate { location: row(7) }));
    let shown = page.unwrap().location;
    assert_eq!(shown.id, 7);
    assert_eq!(shown.name, "Place 7");
    assert_eq!(shown.description, "The place with the number 7");
    assert_eq!(shown.created_at, 700_000_000_000_007);
    assert_eq!(shown.updated_at, 710_000_000_000_007);
}

#[test]
fn a_missing_row_is_a_server_fault() {
    let page = location(Err(StoreError::NotFound));
    assert_eq!(page, Err(Fault::LocationMissing));
    assert_eq!(page.unwrap_err().into_response().status, 500);
}

#[test]
fn a_failed_lookup_is_a_server_fault() {
    let page = location(Err(StoreError::Unavailable));
    assert_eq!(page, Err(Fault::LocationUnavailable));
    assert_eq!(page.unwrap_err().into_response().status, 500);
}
