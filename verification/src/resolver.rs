//! The resolvers' side of a dispatch: which statement fetches the content
//! of a resolution, and what a fetch amounts to.

use vstd::prelude::*;
use crate::dispatch::ResolverError;
use crate::models::{
    PageContent,
    PageData,
    PostData,
    PostSearchResult,
    RenderableContent,
    SearchParams,
};
use crate::search::{next_link, prev_link, search_content, search_plan, search_statement};
use crate::store::{
    one_text,
    page_lookup,
    post_lookup,
    Statement,
    StatementView,
    PAGE_BY_ID,
    POST_BY_SLUG,
};
use crate::table::{Resolution, ResolutionKind};
use crate::text::text_of;

verus! {

/// The parameter that names the page in the pattern of a page route.
pub const PAGE_PARAMETER: &'static str = "id";

/// The parameter that names the post in the pattern of a post route.
pub const POST_PARAMETER: &'static str = "slug";

/// The key of the content that a resolution asks for: the fixed content id
/// of the route where it has one, whatever the match bound, and else the
/// value bound to `parameter`.
pub open spec fn content_key(
    fixed_id: Option<Seq<char>>,
    params: Map<Seq<char>, Seq<char>>,
    parameter: Seq<char>,
) -> Option<Seq<char>> {
    match fixed_id {
        Some(id) => Some(id),
        None => if params.contains_key(parameter) {
            Some(params[parameter])
        } else {
            None
        },
    }
}

/// The statement that fetches the content of a resolution of the given
/// kind, if the resolution names any content: a page by its `id`, a post by
/// its `slug`, a listing by the search parameters of the request.
pub open spec fn statement_of(
    kind: ResolutionKind,
    fixed_id: Option<Seq<char>>,
    params: Map<Seq<char>, Seq<char>>,
    tag: Option<Seq<char>>,
    page: Option<u32>,
) -> Option<StatementView> {
    match kind {
        ResolutionKind::Page => match content_key(fixed_id, params, PAGE_PARAMETER@) {
            Some(id) => Some(one_text(PAGE_BY_ID@, id)),
            None => None,
        },
        ResolutionKind::Post => match content_key(fixed_id, params, POST_PARAMETER@) {
            Some(slug) => Some(one_text(POST_BY_SLUG@, slug)),
            None => None,
        },
        ResolutionKind::Search => Some(search_plan(tag, page)),
    }
}

impl Resolution {
    /// The key of the content that this resolution asks for.
    pub fn content_id(&self, parameter: &str) -> (r: Option<&String>)
        ensures
            match content_key(text_of(self.fixed_id), self.params@, parameter@) {
                Some(key) => r is Some && r->0@ == key,
                None => r is None,
            },
    {
        match &self.fixed_id {
            Some(id) => Some(id),
            None => self.params.get(parameter),
        }
    }

    /// The statement that fetches the content of this resolution, or
    /// nothing where the resolution names no content.
    pub fn statement(&self, search: &SearchParams) -> (r: Option<Statement>)
        ensures
            match statement_of(
                self.kind,
                text_of(self.fixed_id),
                self.params@,
                text_of(search.tag),
                search.page,
            ) {
                Some(statement) => r is Some && r->0@ == statement,
                None => r is None,
            },
    {
        match self.kind {
            ResolutionKind::Page => match self.content_id(PAGE_PARAMETER) {
                Some(id) => Some(page_lookup(id.as_str())),
                None => None,
            },
            ResolutionKind::Post => match self.content_id(POST_PARAMETER) {
                Some(slug) => Some(post_lookup(slug.as_str())),
                None => None,
            },
            ResolutionKind::Search => Some(search_statement(search)),
        }
    }
}

/// What a page lookup amounts to: the row's title and content to render, a
/// missing row as not found, a failed lookup as a failure with the same
/// description.
pub fn page_outcome(fetched: Result<Option<PageData>, String>) -> (r: Result<
    RenderableContent,
    ResolverError,
>)
    ensures
        match fetched {
            Ok(Some(row)) => r == Ok::<RenderableContent, ResolverError>(
                RenderableContent::Page(PageContent { title: row.title, content: row.content }),
            ),
            Ok(None) => r == Err::<RenderableContent, ResolverError>(ResolverError::NotFound),
            Err(description) => r == Err::<RenderableContent, ResolverError>(
                ResolverError::Failure(description),
            ),
        },
{
    match fetched {
        Ok(Some(row)) => Ok(RenderableContent::Page(PageContent::from_row(row))),
        Ok(None) => Err(ResolverError::NotFound),
        Err(description) => Err(ResolverError::Failure(description)),
    }
}

/// What a post lookup amounts to: the row to render, a missing row as not
/// found, a failed lookup as a failure with the same description.
pub fn post_outcome(fetched: Result<Option<PostData>, String>) -> (r: Result<
    RenderableContent,
    ResolverError,
>)
    ensures
        match fetched {
            Ok(Some(row)) => r == Ok::<RenderableContent, ResolverError>(
                RenderableContent::Post(row),
            ),
            Ok(None) => r == Err::<RenderableContent, ResolverError>(ResolverError::NotFound),
            Err(description) => r == Err::<RenderableContent, ResolverError>(
                ResolverError::Failure(description),
            ),
        },
{
    match fetched {
        Ok(Some(row)) => Ok(RenderableContent::Post(row)),
        Ok(None) => Err(ResolverError::NotFound),
        Err(description) => Err(ResolverError::Failure(description)),
    }
}

/// What the fetch of a listing amounts to: the fetched posts with the links
/// to the neighbouring pages, or a failure with the same description. A
/// listing without posts is still a listing.
pub fn search_outcome(params: &SearchParams, fetched: Result<Vec<PostSearchResult>, String>) -> (r:
    Result<RenderableContent, ResolverError>)
    ensures
        match fetched {
            Ok(posts) => {
                &&& r matches Ok(RenderableContent::Search(content))
                &&& content.posts == posts
                &&& text_of(content.prev) == prev_link(text_of(params.tag), params.page)
                &&& text_of(content.next) == next_link(
                    text_of(params.tag),
                    params.page,
                    posts@.len(),
                )
            },
            Err(description) => r == Err::<RenderableContent, ResolverError>(
                ResolverError::Failure(description),
            ),
        },
{
    match fetched {
        Ok(posts) => Ok(RenderableContent::Search(search_content(params, posts))),
        Err(description) => Err(ResolverError::Failure(description)),
    }
}

} // verus!
