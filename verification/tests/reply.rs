use location_pages::reply::{STATUS_BAD_REQUEST, STATUS_INTERNAL_SERVER_ERROR, STATUS_OK};
use location_pages::{ContentType, Fault, PageResponse};

#[test]
fn the_statuses_are_those_of_http() {
    assert_eq!(STATUS_OK, 200);
    assert_eq!(STATUS_BAD_REQUEST, 400);
    assert_eq!(STATUS_INTERNAL_SERVER_ERROR, 500);
}

#[test]
fn the_content_types_name_their_charset() {
    assert_eq!(ContentType::Html.as_str(), "text/html; charset=utf-8");
    assert_eq!(ContentType::PlainText.as_str(), "text/plain; charset=utf-8");
}

#[test]
fn a_bad_location_id_is_the_only_client_error() {
    assert_eq!(Fault::BadLocationId.status(), 400);
    assert_eq!(Fault::LocationsUnavailable.status(), 500);
    assert_eq!(Fault::LocationUnavailable.status(), 500);
    assert_eq!(Fault::LocationMissing.status(), 500);
}

#[test]
fn each_fault_has_its_line() {
    assert_eq!(
        Fault::BadLocationId.message(),
        "Invalid URL: cannot parse the location id as an `i32`"
    );
    assert_eq!(Fault::LocationsUnavailable.message(), "Error loading locations");
    assert_eq!(Fault::LocationUnavailable.message(), "Error fetching location");
    assert_eq!(Fault::LocationMissing.message(), "Error fetching location: NotFound");
}

#[test]
fn a_fault_is_answered_in_plain_text() {
    for fault in [
        Fault::BadLocationId,
        Fault::LocationsUnavailable,
        Fault::LocationUnavailable,
        Fault::LocationMissing,
    ] {
        let response = fault.into_response();
        assert_eq!(
            response,
            PageResponse {
                status: fault.status(),
                content_type: ContentType::PlainText,
                body: fault.message().to_string(),
            }
        );
    }
}

#[test]
fn a_missing_row_is_not_answered_with_not_found() {
    let response = Fault::LocationMissing.into_response();
    assert_eq!(response.status, 500);
    assert_ne!(response.status, 404);
}
