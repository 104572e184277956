//! The content rows that are fetched and the structures that are rendered.

use vstd::prelude::*;
use crate::table::ResolutionKind;

verus! {

/// Render data without any field.
#[derive(Clone, Debug, PartialEq, Eq)]
pub struct RenderData {}

/// What the page template is rendered with.
#[derive(Clone, Debug, PartialEq, Eq)]
pub struct PageContent {
    pub title: Option<String>,
    pub content: String,
}

/// What the listing template is rendered with: one page of posts and the
/// links to the neighbouring pages.
#[derive(Clone, Debug, PartialEq, Eq)]
pub struct PostContent {
    pub posts: Vec<PostSearchResult>,
    pub prev: Option<String>,
    pub next: Option<String>,
}

/// A row of the page table.
#[derive(Clone, Debug, PartialEq, Eq)]
pub struct PageData {
    pub id: String,
    pub title: Option<String>,
    pub content: String,
}

/// The query parameters of a listing request.
#[derive(Clone, Debug, PartialEq, Eq)]
pub struct SearchParams {
    pub tag: Option<String>,
    pub page: Option<u32>,
}

/// A row of the post table; the post template is rendered with it.
#[derive(Clone, Debug, PartialEq, Eq)]
pub struct PostData {
    pub slug: String,
    pub timestamp: Option<usize>,
    pub title: String,
    pub tag: String,
    pub content: String,
}

/// One post of a listing.
#[derive(Clone, Debug, PartialEq, Eq)]
pub struct PostSearchResult {
    pub slug: String,
    pub title: String,
    pub tag: String,
}

/// What a resolver hands back to be rendered, one variant for each
/// resolution kind.
#[derive(Clone, Debug, PartialEq, Eq)]
pub enum RenderableContent {
    Page(PageContent),
    Post(PostData),
    Search(PostContent),
}

impl RenderableContent {
    /// The resolution kind that this content belongs to.
    pub fn kind(&self) -> (k: ResolutionKind)
        ensures
            k == match *self {
                RenderableContent::Page(_) => ResolutionKind::Page,
                RenderableContent::Post(_) => ResolutionKind::Post,
                RenderableContent::Search(_) => ResolutionKind::Search,
            },
    {
        match self {
            RenderableContent::Page(_) => ResolutionKind::Page,
            RenderableContent::Post(_) => ResolutionKind::Post,
            RenderableContent::Search(_) => ResolutionKind::Search,
        }
    }
}

impl PageContent {
    /// The renderable part of a page row: its title and its content.
    pub fn from_row(row: PageData) -> (r: PageContent)
        ensures
            r.title == row.title,
            r.content == row.content,
    {
        PageContent { title: row.title, content: row.content }
    }
}

} // verus!
