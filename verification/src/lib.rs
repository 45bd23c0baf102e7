//! The request-handling core of a small site that lists location records and
//! shows one of them at a time.
//!
//! The library decides; the server around it talks to the network, to the
//! store and to the template engine. Nothing here opens a socket, a file or a
//! connection.
//!
//! For the start page the server runs the read that [`index_query`] names,
//! hands the store's answer to [`index`], renders the [`IndexTemplate`] that
//! comes back, and hands the outcome of the rendering to
//! [`HtmlTemplate::into_response`].
//!
//! For a details page it first hands the path segment to [`location_query`];
//! a segment that names no id is turned away there. Else it runs the lookup,
//! hands the store's answer to [`location`], renders the
//! [`LocationTemplate`] and goes on as above.
//!
//! Wherever a step ends in a [`Fault`], [`Fault::into_response`] is the
//! answer to send.

pub mod ident;
pub mod model;
pub mod pages;
pub mod query;
pub mod render;
pub mod reply;
pub mod site;
pub mod store;

pub use ident::parse_location_id;
pub use model::Location;
pub use pages::{index, location, IndexTemplate, LocationTemplate};
pub use query::{index_query, location_query, FirstRows, RowById, StoreError, INDEX_LIMIT};
pub use render::{html_page, render_failure, HtmlTemplate};
pub use reply::{ContentType, Fault, PageResponse};
