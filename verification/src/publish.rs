//! Publishing: the statements that create and update pages and posts, and
//! the rendering of Markdown sources to the HTML that is stored.

use vstd::prelude::*;
use vstd::string::StringExecFns;
use crate::models::PageData;
use crate::store::{two_texts, with_two_texts, SqlValue, SqlValueView, Statement, StatementView};
use crate::text::text_of;

verus! {

/// Creates the page `?1` with the title `?2`.
pub const PAGE_SET: &'static str = r#"INSERT INTO page (id, title) VALUES (?1, ?2);
                    ON CONFLICT(id) DO UPDATE SET title = ?2"#;

/// Stores `?2` as the content of the page `?1`.
pub const PAGE_UPDATE: &'static str = "UPDATE page SET content = ?2 WHERE id = ?1;";

/// Creates the post `?1` with the title `?2`, or gives it that title.
pub const POST_SET_TITLE: &'static str = r#"INSERT INTO post (slug, title) VALUES (?1, ?2)
                            ON CONFLICT(slug) DO UPDATE SET title = ?2;"#;

/// Gives the post `?1` the tag `?2`.
pub const POST_SET_TAG: &'static str = "UPDATE post SET tag = ?2 WHERE slug = ?1;";

/// Publishes or withdraws the post `?1`, as `?2` says, at the time `?3`.
pub const POST_SET_PUBLISHED: &'static str =
    "UPDATE post SET published = ?2, timestamp = ?3 WHERE slug = ?1;";

/// Stores `?2` as the content of the post `?1`.
pub const POST_UPDATE: &'static str = "UPDATE post SET content = ?2 WHERE slug = ?1;";

/// Stores a page with the id `?1`, the excerpt `?2` and the content `?3`.
pub const PAGE_REPLACE: &'static str = "INSERT OR REPLACE INTO page (id, excerpt, content) 
  VALUES (?1, ?2, ?3);";

/// Selects every page.
pub const ALL_PAGES: &'static str = "SELECT * FROM page";

/// What is published: a page or a post.
#[derive(Clone, Copy, Debug, PartialEq, Eq, Structural)]
pub enum ContentKind {
    Page,
    Post,
}

/// The HTML that pulldown-cmark renders for a Markdown text, with none of
/// its extensions enabled.
pub uninterp spec fn rendered_html(markdown: Seq<char>) -> Seq<char>;

/// Renders Markdown to HTML with `pulldown_cmark::html::push_html`, on the
/// events that `pulldown_cmark::Parser::new` reads from the text. The output
/// is determined by the text alone.
#[verifier::external_body]
fn render_markdown(markdown: &str) -> (html: String)
    ensures
        html@ == rendered_html(markdown@),
{
    let mut html = String::new();
    pulldown_cmark::html::push_html(&mut html, pulldown_cmark::Parser::new(markdown));
    html
}

/// The file that holds the Markdown source of `name` where none is given:
/// `pages/<name>.md` for a page, `posts/<name>.md` for a post.
pub open spec fn default_source(kind: ContentKind, name: Seq<char>) -> Seq<char> {
    match kind {
        ContentKind::Page => "pages/"@ + name + ".md"@,
        ContentKind::Post => "posts/"@ + name + ".md"@,
    }
}

/// The file to read the Markdown source of `name` from: the one given, or
/// else the default for its kind.
pub fn source_file(kind: ContentKind, name: &str, file: &Option<String>) -> (r: String)
    ensures
        r@ == match *file {
            Some(given) => given@,
            None => default_source(kind, name@),
        },
{
    match file {
        Some(given) => given.clone(),
        None => {
            let mut r = match kind {
                ContentKind::Page => String::from_str("pages/"),
                ContentKind::Post => String::from_str("posts/"),
            };
            r.append(name);
            r.append(".md");
            r
        },
    }
}

/// Creates the page `name` with the given title.
pub fn page_set(name: &str, title: &str) -> (r: Statement)
    ensures
        r@ == two_texts(PAGE_SET@, name@, title@),
{
    with_two_texts(PAGE_SET, name, title)
}

/// Stores `html` as the content of `name`.
pub fn content_update(kind: ContentKind, name: &str, html: &str) -> (r: Statement)
    ensures
        r@ == two_texts(
            match kind {
                ContentKind::Page => PAGE_UPDATE@,
                ContentKind::Post => POST_UPDATE@,
            },
            name@,
            html@,
        ),
{
    match kind {
        ContentKind::Page => with_two_texts(PAGE_UPDATE, name, html),
        ContentKind::Post => with_two_texts(POST_UPDATE, name, html),
    }
}

/// Renders a Markdown text to HTML.
pub fn markdown_to_html(markdown: &str) -> (html: String)
    ensures
        html@ == rendered_html(markdown@),
{
    render_markdown(markdown)
}

/// Renders the Markdown source of `name` and stores the HTML as its content.
pub fn source_update(kind: ContentKind, name: &str, markdown: &str) -> (r: Statement)
    ensures
        r@ == two_texts(
            match kind {
                ContentKind::Page => PAGE_UPDATE@,
                ContentKind::Post => POST_UPDATE@,
            },
            name@,
            rendered_html(markdown@),
        ),
{
    let html = markdown_to_html(markdown);
    content_update(kind, name, html.as_str())
}

/// The time that is stored with a post: the current time when it is
/// published, zero when it is withdrawn.
pub open spec fn published_at(published: bool, now: u64) -> u64 {
    if published {
        now
    } else {
        0
    }
}

/// The statements that set the metadata of the post `name`, in the order
/// in which they run: the title, the tag, then the publication, each only
/// where a value is given.
pub open spec fn post_set_plan(
    name: Seq<char>,
    title: Option<Seq<char>>,
    tag: Option<Seq<char>>,
    published: Option<bool>,
    now: u64,
) -> Seq<StatementView> {
    let for_title = match title {
        Some(t) => seq![two_texts(POST_SET_TITLE@, name, t)],
        None => seq![],
    };
    let for_tag = match tag {
        Some(t) => seq![two_texts(POST_SET_TAG@, name, t)],
        None => seq![],
    };
    let for_published = match published {
        Some(p) => seq![
            StatementView {
                sql: POST_SET_PUBLISHED@,
                params: seq![
                    SqlValueView::Text(name),
                    SqlValueView::Boolean(p),
                    SqlValueView::Integer(published_at(p, now) as int),
                ],
            },
        ],
        None => seq![],
    };
    for_title + for_tag + for_published
}

/// The statements that set the metadata of the post `name`; `now` is the
/// current time in seconds since the epoch.
pub fn post_set(
    name: &str,
    title: &Option<String>,
    tag: &Option<String>,
    published: Option<bool>,
    now: u64,
) -> (r: Vec<Statement>)
    ensures
        r.deep_view() == post_set_plan(name@, text_of(*title), text_of(*tag), published, now),
{
    let mut plan: Vec<Statement> = Vec::new();
    match title {
        Some(t) => {
            plan.push(with_two_texts(POST_SET_TITLE, name, t.as_str()));
        },
        None => {},
    }
    match tag {
        Some(t) => {
            plan.push(with_two_texts(POST_SET_TAG, name, t.as_str()));
        },
        None => {},
    }
    match published {
        Some(p) => {
            let at: u64 = if p {
                now
            } else {
                0
            };
            let mut params: Vec<SqlValue> = Vec::new();
            params.push(SqlValue::Text(name.to_owned()));
            params.push(SqlValue::Boolean(p));
            params.push(SqlValue::Integer(at));
            let statement = Statement { sql: POST_SET_PUBLISHED.to_owned(), params };
            assert(statement@.params =~= seq![
                SqlValueView::Text(name@),
                SqlValueView::Boolean(p),
                SqlValueView::Integer(published_at(p, now) as int),
            ]);
            plan.push(statement);
        },
        None => {},
    }
    assert(plan.deep_view() =~= post_set_plan(
        name@,
        text_of(*title),
        text_of(*tag),
        published,
        now,
    ));
    plan
}

/// The statement that stores the sample home page.
pub fn home_page() -> (r: Statement)
    ensures
        r@.sql == PAGE_REPLACE@,
        r@.params == seq![
            SqlValueView::Text("home"@),
            SqlValueView::Text(""@),
            SqlValueView::Text("<h1>Hello, World!</h1>"@),
        ],
{
    let mut params: Vec<SqlValue> = Vec::new();
    params.push(SqlValue::Text(String::from_str("home")));
    params.push(SqlValue::Text(String::from_str("")));
    params.push(SqlValue::Text(String::from_str("<h1>Hello, World!</h1>")));
    let r = Statement { sql: PAGE_REPLACE.to_owned(), params };
    assert(r@.params =~= seq![
        SqlValueView::Text("home"@),
        SqlValueView::Text(""@),
        SqlValueView::Text("<h1>Hello, World!</h1>"@),
    ]);
    r
}

/// The statement that selects every page.
pub fn all_pages() -> (r: Statement)
    ensures
        r@.sql == ALL_PAGES@,
        r@.params == Seq::<SqlValueView>::empty(),
{
    let r = Statement { sql: ALL_PAGES.to_owned(), params: Vec::new() };
    assert(r@.params =~= Seq::<SqlValueView>::empty());
    r
}

/// The line that lists a page: its id, a space, and its content.
pub fn page_line(page: &PageData) -> (r: String)
    ensures
        r@ == page.id@ + " "@ + page.content@,
{
    let mut r = page.id.clone();
    r.append(" ");
    r.append(page.content.as_str());
    r
}

} // verus!
