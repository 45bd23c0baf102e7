use location_pages::{index_query, location_query, Fault, FirstRows, RowById, INDEX_LIMIT};

#[test]
fn the_start_page_asks_for_ten_rows() {
    assert_eq!(INDEX_LIMIT, 10);
    assert_eq!(index_query(), FirstRows { limit: 10 });
}

#[test]
fn a_numeric_segment_asks_for_that_row() {
    assert_eq!(location_query("7"), Ok(RowById { id: 7 }));
    assert_eq!(location_query("-3"), Ok(RowById { id: -3 }));
    assert_eq!(location_query("+0012"), Ok(RowById { id: 12 }));
    assert_eq!(location_query("2147483647"), Ok(RowById { id: i32::MAX }));
}

#[test]
fn a_non_numeric_segment_asks_for_nothing() {
    assert_eq!(location_query("abc"), Err(Fault::BadLocationId));
    assert_eq!(location_query(""), Err(Fault::BadLocationId));
    assert_eq!(location_query("12abc"), Err(Fault::BadLocationId));
    assert_eq!(location_query("2147483648"), Err(Fault::BadLocationId));
}

#[test]
fn a_non_numeric_segment_is_answered_with_a_client_error() {
    let fault = location_query("abc").unwrap_err();
    let response = fault.into_response();
    assert_eq!(response.status, 400);
    assert!(response.status >= 400 && response.status < 500);
}
