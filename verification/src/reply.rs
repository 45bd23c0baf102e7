//! What the site answers: a status, a content type and a body.

use vstd::prelude::*;

verus! {

/// Status of a page that was served.
pub const STATUS_OK: u16 = 200;

/// Status of a request that the site could not read.
pub const STATUS_BAD_REQUEST: u16 = 400;

/// Status of a request that failed on the site's side.
pub const STATUS_INTERNAL_SERVER_ERROR: u16 = 500;

/// The two kinds of body that the site sends.
#[derive(Clone, Copy, Debug, PartialEq, Eq, Structural)]
pub enum ContentType {
    /// A rendered page.
    Html,
    /// A diagnostic in plain text.
    PlainText,
}

impl ContentType {
    /// The value of the `Content-Type` header.
    pub open spec fn header(self) -> Seq<char> {
        match self {
            ContentType::Html => "text/html; charset=utf-8"@,
            ContentType::PlainText => "text/plain; charset=utf-8"@,
        }
    }

    /// The value of the `Content-Type` header.
    pub fn as_str(&self) -> (value: &'static str)
        ensures
            value@ == self.header(),
    {
        match self {
            ContentType::Html => "text/html; charset=utf-8",
            ContentType::PlainText => "text/plain; charset=utf-8",
        }
    }
}

/// One answer of the site.
#[derive(Debug, PartialEq, Eq)]
pub struct PageResponse {
    pub status: u16,
    pub content_type: ContentType,
    pub body: String,
}

/// A [`PageResponse`] as mathematical values.
pub struct PageResponseView {
    pub status: int,
    pub content_type: ContentType,
    pub body: Seq<char>,
}

impl View for PageResponse {
    type V = PageResponseView;

    open spec fn view(&self) -> PageResponseView {
        PageResponseView {
            status: self.status as int,
            content_type: self.content_type,
            body: self.body@,
        }
    }
}

/// Why a request got no page.
///
/// A row that is missing is answered like a store that failed, with status
/// 500: the site has no separate "not found" answer.
#[derive(Clone, Copy, Debug, PartialEq, Eq, Structural)]
pub enum Fault {
    /// The path segment of a details page names no location id.
    BadLocationId,
    /// The rows of the start page could not be read.
    LocationsUnavailable,
    /// The row of a details page could not be read.
    LocationUnavailable,
    /// The store holds no row under the id that was asked for.
    LocationMissing,
}

impl Fault {
    /// The status that the fault is answered with: 400 for a request that
    /// cannot be read, 500 for everything that went wrong behind it.
    pub open spec fn status_of(self) -> u16 {
        match self {
            Fault::BadLocationId => STATUS_BAD_REQUEST,
            Fault::LocationsUnavailable => STATUS_INTERNAL_SERVER_ERROR,
            Fault::LocationUnavailable => STATUS_INTERNAL_SERVER_ERROR,
            Fault::LocationMissing => STATUS_INTERNAL_SERVER_ERROR,
        }
    }

    /// The line of plain text that the fault is answered with.
    pub open spec fn message_of(self) -> Seq<char> {
        match self {
            Fault::BadLocationId => "Invalid URL: cannot parse the location id as an `i32`"@,
            Fault::LocationsUnavailable => "Error loading locations"@,
            Fault::LocationUnavailable => "Error fetching location"@,
            Fault::LocationMissing => "Error fetching location: NotFound"@,
        }
    }

    /// The whole answer to a request that ended in this fault.
    pub open spec fn reply(self) -> PageResponseView {
        PageResponseView {
            status: self.status_of() as int,
            content_type: ContentType::PlainText,
            body: self.message_of(),
        }
    }

    /// The status that the fault is answered with.
    pub fn status(&self) -> (status: u16)
        ensures
            status == self.status_of(),
    {
        match self {
            Fault::BadLocationId => STATUS_BAD_REQUEST,
            Fault::LocationsUnavailable => STATUS_INTERNAL_SERVER_ERROR,
            Fault::LocationUnavailable => STATUS_INTERNAL_SERVER_ERROR,
            Fault::LocationMissing => STATUS_INTERNAL_SERVER_ERROR,
        }
    }

    /// The line of plain text that the fault is answered with.
    pub fn message(&self) -> (message: &'static str)
        ensures
            message@ == self.message_of(),
    {
        match self {
            Fault::BadLocationId => "Invalid URL: cannot parse the location id as an `i32`",
            Fault::LocationsUnavailable => "Error loading locations",
            Fault::LocationUnavailable => "Error fetching location",
            Fault::LocationMissing => "Error fetching location: NotFound",
        }
    }

    /// Answers a request that ended in this fault.
    pub fn into_response(self) -> (response: PageResponse)
        ensures
            response@ == self.reply(),
    {
        PageResponse {
            status: self.status(),
            content_type: ContentType::PlainText,
            body: self.message().to_owned(),
        }
    }
}

} // verus!
