//! A request filter for a reverse proxy: where a request carries the
//! configured trigger header, it is answered with a redirect to its own path
//! with the header's value appended, unless the path already holds that
//! value.
//!
//! [`policy`] holds the configuration and the store that publishes it,
//! [`request`] the request as the filter sees it, and [`interceptor`] the
//! decision and what the host is asked to do about it. [`entries`] and
//! [`text`] have the lookup and the substring search underneath, and
//! [`json`] the boundary to the JSON parser.

pub mod entries;
pub mod interceptor;
pub mod json;
pub mod policy;
pub mod request;
pub mod text;
