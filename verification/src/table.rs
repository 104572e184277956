//! The ordered route table and the choice of the entry that serves a path.

use vstd::prelude::*;
use crate::matcher::{accepts, bindings, MatchResult};
use crate::path::{segments, split_segments};
use crate::pattern::{parse_pattern, RoutePattern, SegmentView};
use crate::text::{clone_text, text_of};

verus! {

/// The content-resolution strategy that a route is bound to.
#[derive(Clone, Copy, Debug, PartialEq, Eq, Structural)]
pub enum ResolutionKind {
    /// Look up a single page.
    Page,
    /// Look up a single post.
    Post,
    /// List posts, filtered and paginated.
    Search,
}

/// The name of the template that renders content of the given kind.
pub open spec fn template_of(kind: ResolutionKind) -> Seq<char> {
    match kind {
        ResolutionKind::Page => "page"@,
        ResolutionKind::Post => "post"@,
        ResolutionKind::Search => "search"@,
    }
}

/// The resolution kind that a tag of a route table source names: `page`,
/// `post` or `search`. Any other tag names none.
pub open spec fn kind_of_tag(tag: Seq<char>) -> Option<ResolutionKind> {
    if tag == "page"@ {
        Some(ResolutionKind::Page)
    } else if tag == "post"@ {
        Some(ResolutionKind::Post)
    } else if tag == "search"@ {
        Some(ResolutionKind::Search)
    } else {
        None
    }
}

impl ResolutionKind {
    /// The name of the template that renders content of this kind.
    pub fn template(self) -> (name: &'static str)
        ensures
            name@ == template_of(self),
    {
        match self {
            ResolutionKind::Page => "page",
            ResolutionKind::Post => "post",
            ResolutionKind::Search => "search",
        }
    }

    /// Reads the tag of a resolution kind.
    pub fn from_tag(tag: &str) -> (r: Option<ResolutionKind>)
        ensures
            r == kind_of_tag(tag@),
    {
        let tag = tag.to_owned();
        if tag == "page".to_owned() {
            Some(ResolutionKind::Page)
        } else if tag == "post".to_owned() {
            Some(ResolutionKind::Post)
        } else if tag == "search".to_owned() {
            Some(ResolutionKind::Search)
        } else {
            None
        }
    }
}

/// One entry of a route table source: the pattern and the tag of the
/// resolution kind as written, and the optional fixed content id.
#[derive(Clone, Debug, PartialEq, Eq)]
pub struct RouteSource {
    pub pattern: String,
    pub kind: String,
    pub fixed_id: Option<String>,
}

/// Why a route table source could not be loaded.
#[derive(Clone, Debug, PartialEq, Eq)]
pub enum TableError {
    /// The entry at this position carries a tag that names no resolution
    /// kind.
    UnknownKind { index: usize },
}

/// Whether a source entry is well formed: its tag names a resolution kind.
pub open spec fn well_formed(source: RouteSource) -> bool {
    kind_of_tag(source.kind@) is Some
}

/// The route that a well-formed source entry stands for.
pub open spec fn entry_of(source: RouteSource) -> RouteEntryView {
    RouteEntryView {
        pattern: parse_pattern(source.pattern@),
        kind: kind_of_tag(source.kind@)->0,
        fixed_id: text_of(source.fixed_id),
    }
}

/// The mathematical value of a [`RouteEntry`].
pub struct RouteEntryView {
    pub pattern: Seq<SegmentView>,
    pub kind: ResolutionKind,
    pub fixed_id: Option<Seq<char>>,
}

/// One route: a pattern bound to a resolution kind, with an optional fixed
/// content id for a pattern that always resolves to one piece of content.
#[derive(Debug)]
pub struct RouteEntry {
    pattern: RoutePattern,
    kind: ResolutionKind,
    fixed_id: Option<String>,
}

impl View for RouteEntry {
    type V = RouteEntryView;

    closed spec fn view(&self) -> RouteEntryView {
        RouteEntryView {
            pattern: self.pattern@,
            kind: self.kind,
            fixed_id: text_of(self.fixed_id),
        }
    }
}

impl RouteEntry {
    /// Binds the pattern written as `pattern` to `kind`.
    pub fn new(pattern: &str, kind: ResolutionKind, fixed_id: Option<String>) -> (r: RouteEntry)
        ensures
            r@.pattern == parse_pattern(pattern@),
            r@.kind == kind,
            r@.fixed_id == text_of(fixed_id),
    {
        RouteEntry { pattern: RoutePattern::parse(pattern), kind, fixed_id }
    }

    /// The pattern of this route.
    pub fn pattern(&self) -> (r: &RoutePattern)
        ensures
            r@ == self@.pattern,
    {
        &self.pattern
    }

    /// The resolution kind of this route.
    pub fn kind(&self) -> (r: ResolutionKind)
        ensures
            r == self@.kind,
    {
        self.kind
    }

    /// The fixed content id of this route, if it has one.
    pub fn fixed_id(&self) -> (r: &Option<String>)
        ensures
            text_of(*r) == self@.fixed_id,
    {
        &self.fixed_id
    }
}

/// The routes of a site in priority order. A table is built once and never
/// changed; a different table is a new value.
#[derive(Debug)]
pub struct RouteTable {
    entries: Vec<RouteEntry>,
}

impl View for RouteTable {
    type V = Seq<RouteEntryView>;

    closed spec fn view(&self) -> Seq<RouteEntryView> {
        self.entries@.map_values(|entry: RouteEntry| entry@)
    }
}

/// What the dispatcher hands to a content resolver: the entry that was
/// chosen, its kind and fixed content id, and the parameters that the match
/// bound.
pub struct Resolution {
    pub index: usize,
    pub kind: ResolutionKind,
    pub fixed_id: Option<String>,
    pub params: MatchResult,
}

/// Whether entry `i` of the table matches the path.
pub open spec fn entry_matches(table: Seq<RouteEntryView>, path: Seq<char>, i: int) -> bool {
    0 <= i < table.len() && accepts(table[i].pattern, segments(path))
}

/// The first entry at or after position `from` that matches the path.
pub open spec fn first_match(table: Seq<RouteEntryView>, path: Seq<char>, from: nat) -> Option<int>
    decreases table.len() - from,
{
    if from >= table.len() {
        None
    } else if entry_matches(table, path, from as int) {
        Some(from as int)
    } else {
        first_match(table, path, from + 1)
    }
}

/// The entry that serves the path: the first one in table order that
/// matches it.
pub open spec fn selected(table: Seq<RouteEntryView>, path: Seq<char>) -> Option<int> {
    first_match(table, path, 0)
}

/// The routes of the site: the listing at the root, pages under `/page`,
/// posts under `/post`.
pub open spec fn site_routes() -> Seq<RouteEntryView> {
    seq![
        RouteEntryView {
            pattern: parse_pattern("/"@),
            kind: ResolutionKind::Search,
            fixed_id: None,
        },
        RouteEntryView {
            pattern: parse_pattern("/page/:id"@),
            kind: ResolutionKind::Page,
            fixed_id: None,
        },
        RouteEntryView {
            pattern: parse_pattern("/post/:slug"@),
            kind: ResolutionKind::Post,
            fixed_id: None,
        },
    ]
}

impl RouteTable {
    /// The routes of the site.
    pub fn site() -> (r: RouteTable)
        ensures
            r@ == site_routes(),
    {
        let mut entries: Vec<RouteEntry> = Vec::new();
        entries.push(RouteEntry::new("/", ResolutionKind::Search, None));
        entries.push(RouteEntry::new("/page/:id", ResolutionKind::Page, None));
        entries.push(RouteEntry::new("/post/:slug", ResolutionKind::Post, None));
        let r = RouteTable { entries };
        assert(r@ =~= site_routes());
        r
    }

    /// Loads a table from its source, keeping the order of the entries.
    /// One malformed entry fails the whole load, and the error names the
    /// first such entry.
    pub fn load(source: &Vec<RouteSource>) -> (r: Result<RouteTable, TableError>)
        ensures
            match r {
                Ok(table) => {
                    &&& forall|i: int| 0 <= i < source@.len() ==> well_formed(#[trigger] source@[i])
                    &&& table@ == source@.map_values(|entry: RouteSource| entry_of(entry))
                },
                Err(TableError::UnknownKind { index }) => {
                    &&& index < source@.len()
                    &&& !well_formed(source@[index as int])
                    &&& forall|i: int| 0 <= i < index ==> well_formed(#[trigger] source@[i])
                },
            },
    {
        let mut entries: Vec<RouteEntry> = Vec::new();
        for index in 0..source.len()
            invariant
                entries@.len() == index,
                forall|i: int| 0 <= i < index ==> well_formed(#[trigger] source@[i]),
                forall|i: int| 0 <= i < index ==> (#[trigger] entries@[i])@ == entry_of(source@[i]),
        {
            let entry = &source[index];
            match ResolutionKind::from_tag(entry.kind.as_str()) {
                Some(kind) => {
                    entries.push(
                        RouteEntry::new(entry.pattern.as_str(), kind, clone_text(&entry.fixed_id)),
                    );
                },
                None => {
                    return Err(TableError::UnknownKind { index });
                },
            }
        }
        let table = RouteTable { entries };
        assert(table@ =~= source@.map_values(|entry: RouteSource| entry_of(entry)));
        Ok(table)
    }

    /// A table of the given routes, in the given order.
    pub fn new(entries: Vec<RouteEntry>) -> (r: RouteTable)
        ensures
            r@ == entries@.map_values(|entry: RouteEntry| entry@),
    {
        RouteTable { entries }
    }

    /// The number of routes.
    pub fn len(&self) -> (n: usize)
        ensures
            n == self@.len(),
    {
        self.entries.len()
    }

    /// The route at position `index`, if the table has that many.
    pub fn entry(&self, index: usize) -> (r: Option<&RouteEntry>)
        ensures
            index < self@.len() ==> r is Some && r->0@ == self@[index as int],
            index >= self@.len() ==> r is None,
    {
        if index < self.entries.len() {
            Some(&self.entries[index])
        } else {
            None
        }
    }

    /// Chooses the route that serves `path`: the first entry, in table order,
    /// whose pattern matches. Gives its position, kind and fixed content id
    /// together with the parameters bound by the match, or nothing where no
    /// entry matches.
    pub fn resolve(&self, path: &str) -> (r: Option<Resolution>)
        ensures
            match selected(self@, path@) {
                Some(i) => {
                    &&& r is Some
                    &&& r->0.index == i
                    &&& r->0.kind == self@[i].kind
                    &&& text_of(r->0.fixed_id) == self@[i].fixed_id
                    &&& r->0.params@ == bindings(
                        self@[i].pattern,
                        segments(path@),
                        self@[i].pattern.len(),
                    )
                },
                None => r is None,
            },
    {
        let values = split_segments(path);
        let mut i: usize = 0;
        while i < self.entries.len()
            invariant
                i <= self.entries@.len(),
                values.deep_view() == segments(path@),
                selected(self@, path@) == first_match(self@, path@, i as nat),
            decreases self.entries@.len() - i,
        {
            let entry = &self.entries[i];
            match entry.pattern.matches_segments(&values) {
                Some(params) => {
                    return Some(
                        Resolution {
                            index: i,
                            kind: entry.kind,
                            fixed_id: clone_text(&entry.fixed_id),
                            params,
                        },
                    );
                },
                None => {},
            }
            i += 1;
        }
        None
    }
}

/// From position `from` on, the first match is the least matching position,
/// and there is none exactly when no entry from there on matches.
pub proof fn lemma_first_match(table: Seq<RouteEntryView>, path: Seq<char>, from: nat)
    ensures
        match first_match(table, path, from) {
            Some(i) => {
                &&& from <= i
                &&& entry_matches(table, path, i)
                &&& forall|j: int| from <= j < i ==> !entry_matches(table, path, j)
            },
            None => forall|j: int| from <= j ==> !entry_matches(table, path, j),
        },
    decreases table.len() - from,
{
    if from < table.len() && !entry_matches(table, path, from as int) {
        lemma_first_match(table, path, from + 1);
    }
}

/// The entry that serves a path is the least position whose pattern
/// matches; no entry serves it exactly when no pattern matches.
pub proof fn lemma_selected_is_first(table: Seq<RouteEntryView>, path: Seq<char>)
    ensures
        match selected(table, path) {
            Some(i) => {
                &&& entry_matches(table, path, i)
                &&& forall|j: int| 0 <= j < i ==> !entry_matches(table, path, j)
            },
            None => forall|j: int| !entry_matches(table, path, j),
        },
{
    lemma_first_match(table, path, 0);
}

/// Table order is priority: where the entries at positions `earlier` and
/// `later` both match a path, the later one does not serve it. The path is
/// served by an entry at or before `earlier`, and by `earlier` itself, with
/// its resolution kind, where no entry before it matches.
pub proof fn lemma_earlier_entry_wins(
    table: Seq<RouteEntryView>,
    path: Seq<char>,
    earlier: int,
    later: int,
)
    requires
        earlier < later,
        entry_matches(table, path, earlier),
        entry_matches(table, path, later),
    ensures
        selected(table, path) is Some,
        selected(table, path)->0 <= earlier,
        selected(table, path)->0 != later,
        (forall|j: int| 0 <= j < earlier ==> !entry_matches(table, path, j)) ==> selected(
            table,
            path,
        ) == Some(earlier) && table[selected(table, path)->0].kind == table[earlier].kind,
{
    lemma_selected_is_first(table, path);
}

} // verus!
