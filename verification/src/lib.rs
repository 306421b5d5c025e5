//! Fetching a page over HTTP and telling whether it is an HTML document.
//!
//! The library holds the rules of a fetch: which status codes count as
//! success, what the outcome of a GET yields, and when a body is HTML. The
//! network itself stays outside: a [`Transport`] hands in what it received,
//! and a [`CannedTransport`] answers from a table where no request may be
//! sent.

pub mod canned;
pub mod error;
pub mod fetcher;
pub mod html;
pub mod transport;

pub use canned::CannedTransport;
pub use error::NetworkError;
pub use fetcher::{body_of, html_verdict, returns_html, Fetcher, HttpBodyGetter};
pub use html::body_is_html;
pub use transport::{check_status, is_success, Response, Transport};
