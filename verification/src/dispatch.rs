//! Dispatch: from a request path to the resolver that serves it, and from
//! the resolver's outcome to what the caller is told.
//!
//! Resolvers fetch content and may wait on the network, so they run outside
//! this library. A dispatch is two steps around that work: [`Dispatcher::begin`]
//! chooses the route, and [`Dispatcher::finish`] classifies what the resolver
//! gave back.

use vstd::prelude::*;
use crate::errors::{AppError, StatusCode};
use crate::matcher::bindings;
use crate::models::RenderableContent;
use crate::path::segments;
use crate::table::{selected, Resolution, RouteEntryView, RouteTable};
use crate::text::text_of;

verus! {

/// Why a resolver produced no content.
#[derive(Clone, Debug, PartialEq, Eq)]
pub enum ResolverError {
    /// The lookup found no row.
    NotFound,
    /// The lookup itself failed, with this description.
    Failure(String),
}

/// Why a dispatch produced no content.
#[derive(Clone, Debug, PartialEq, Eq)]
pub enum DispatchError {
    /// No entry of the route table matched the request path.
    NoRouteMatched,
    /// A route matched, but its resolver found no content.
    ContentNotFound,
    /// A route matched, but its resolver failed, with this description.
    ResolverFailure(String),
}

/// What a dispatch ends in for a given outcome of the resolver: content is
/// passed on untouched, a missing row becomes `ContentNotFound`, and any
/// other failure becomes `ResolverFailure` with the same description.
pub open spec fn classify(outcome: Result<RenderableContent, ResolverError>) -> Result<
    RenderableContent,
    DispatchError,
> {
    match outcome {
        Ok(content) => Ok(content),
        Err(ResolverError::NotFound) => Err(DispatchError::ContentNotFound),
        Err(ResolverError::Failure(description)) => Err(
            DispatchError::ResolverFailure(description),
        ),
    }
}

/// The number of the status of the response that reports a dispatch error:
/// 404 for a missing route or missing content, 500 for a resolver failure.
pub open spec fn status_of(error: DispatchError) -> int {
    match error {
        DispatchError::NoRouteMatched => 404,
        DispatchError::ContentNotFound => 404,
        DispatchError::ResolverFailure(_) => 500,
    }
}

impl DispatchError {
    /// The status of the response that reports this error: not found for a
    /// missing route or missing content, internal server error for a
    /// resolver failure.
    pub fn status_code(&self) -> (code: StatusCode)
        ensures
            code@ == status_of(*self),
    {
        match self {
            DispatchError::NoRouteMatched => StatusCode::not_found(),
            DispatchError::ContentNotFound => StatusCode::not_found(),
            DispatchError::ResolverFailure(_) => StatusCode::internal_server_error(),
        }
    }

    /// The error that the boundary answers with: the status of this error,
    /// and the resolver's description where there is one.
    pub fn into_app_error(self) -> (r: AppError)
        ensures
            r.status_code@ == status_of(self),
            match self {
                DispatchError::ResolverFailure(description) => r.message == description,
                _ => r.message@ == Seq::<char>::empty(),
            },
    {
        match self {
            DispatchError::NoRouteMatched => AppError::status(StatusCode::not_found()),
            DispatchError::ContentNotFound => AppError::status(StatusCode::not_found()),
            DispatchError::ResolverFailure(description) => AppError::new(description),
        }
    }
}

/// The parameter values that a resolver of `table[i]` receives for `path`.
pub open spec fn bound_params(table: Seq<RouteEntryView>, path: Seq<char>, i: int) -> Map<
    Seq<char>,
    Seq<char>,
> {
    bindings(table[i].pattern, segments(path), table[i].pattern.len())
}

/// Walks a route table for each request.
#[derive(Debug)]
pub struct Dispatcher {
    table: RouteTable,
}

impl Dispatcher {
    /// A dispatcher over `table`.
    pub fn new(table: RouteTable) -> (r: Dispatcher)
        ensures
            r.table() == table,
    {
        Dispatcher { table }
    }

    /// The route table.
    pub closed spec fn table(&self) -> RouteTable {
        self.table
    }

    /// The route table.
    pub fn routes(&self) -> (r: &RouteTable)
        ensures
            *r == self.table(),
    {
        &self.table
    }

    /// The first step of a dispatch: chooses the first entry, in table
    /// order, whose pattern matches `path`, and says which resolver to run
    /// and with what. Where no entry matches, the dispatch is over.
    pub fn begin(&self, path: &str) -> (r: Result<Resolution, DispatchError>)
        ensures
            match selected(self.table()@, path@) {
                Some(i) => {
                    &&& r is Ok
                    &&& r->Ok_0.index == i
                    &&& r->Ok_0.kind == self.table()@[i].kind
                    &&& text_of(r->Ok_0.fixed_id) == self.table()@[i].fixed_id
                    &&& r->Ok_0.params@ == bound_params(self.table()@, path@, i)
                },
                None => r == Err::<Resolution, DispatchError>(DispatchError::NoRouteMatched),
            },
    {
        match self.table.resolve(path) {
            Some(resolution) => Ok(resolution),
            None => Err(DispatchError::NoRouteMatched),
        }
    }

    /// The last step of a dispatch: classifies the outcome of the resolver.
    pub fn finish(outcome: Result<RenderableContent, ResolverError>) -> (r: Result<
        RenderableContent,
        DispatchError,
    >)
        ensures
            r == classify(outcome),
    {
        match outcome {
            Ok(content) => Ok(content),
            Err(ResolverError::NotFound) => Err(DispatchError::ContentNotFound),
            Err(ResolverError::Failure(description)) => Err(
                DispatchError::ResolverFailure(description),
            ),
        }
    }
}

} // verus!
