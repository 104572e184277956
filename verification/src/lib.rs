//! Route matching and dispatch for a small content-publishing site.
//!
//! A request path is matched, segment by segment, against the patterns of an
//! ordered route table. The first pattern that matches decides which content
//! the request asks for, and the parameters bound by the match say which
//! page or post it is. Fetching and rendering are left to the caller: the
//! library says which statement fetches the content and what the outcome of
//! the fetch means.

pub mod dispatch;
pub mod errors;
pub mod matcher;
pub mod models;
pub mod path;
pub mod pattern;
pub mod publish;
pub mod resolver;
pub mod search;
pub mod store;
pub mod table;
pub mod text;

pub use crate::matcher::match_route;
