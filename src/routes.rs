use vstd::prelude::*;
use crate::catalog::{ProjectView, get_projects, find_project, seed_catalog, catalog_view};
use crate::html::{home_page, projects_page, home_html, projects_html};
use crate::json::{
    project_json, projects_json, not_found_json, project_to_json, projects_to_json,
    not_found_body,
};

verus! {

/// Content type of both pages.
pub const HTML_TYPE: &'static str = "text/html; charset=utf-8";

/// Content type of every API answer.
pub const JSON_TYPE: &'static str = "application/json";

/// An HTTP answer: status code, content type (empty for none) and body.
pub struct Response {
    pub status: u16,
    pub content_type: String,
    pub body: String,
}

pub struct ResponseView {
    pub status: u16,
    pub content_type: Seq<char>,
    pub body: Seq<char>,
}

impl View for Response {
    type V = ResponseView;

    open spec fn view(&self) -> ResponseView {
        ResponseView { status: self.status, content_type: self.content_type@, body: self.body@ }
    }
}

/// Where a request is sent.
pub enum Route {
    Home,
    Projects,
    ApiProjects,
    ApiProject(u32),
    Unmatched,
}

pub open spec fn is_digit(c: char) -> bool {
    '0' <= c && c <= '9'
}

/// The value of a run of decimal digits.
pub open spec fn digits_value(s: Seq<char>) -> nat
    decreases s.len(),
{
    if s.len() == 0 {
        0
    } else {
        digits_value(s.drop_last()) * 10 + ((s.last() as u32) - ('0' as u32)) as nat
    }
}

/// The text after an optional leading `+`.
pub open spec fn unsigned_part(s: Seq<char>) -> Seq<char> {
    if s.len() > 0 && s[0] == '+' {
        s.drop_first()
    } else {
        s
    }
}

/// A decimal `u32`: an optional `+`, then one digit or more, of a value
/// that fits.
pub open spec fn parse_u32(s: Seq<char>) -> Option<u32> {
    let d = unsigned_part(s);
    if d.len() > 0 && (forall|i: int| 0 <= i < d.len() ==> is_digit(#[trigger] d[i]))
        && digits_value(d) <= u32::MAX {
        Some(digits_value(d) as u32)
    } else {
        None
    }
}

/// Relies on `str::parse::<u32>`: std reads an optional `+` followed by
/// decimal digits, and fails on empty text, any other character, or a value
/// out of range.
#[verifier::external_body]
fn parse_id(s: &str) -> (r: Option<u32>)
    ensures
        r == parse_u32(s@),
{
    s.parse::<u32>().ok()
}

pub open spec fn item_prefix() -> Seq<char> {
    "/api/projects/"@
}

/// The route table: GET only, four paths, the last with a numeric id.
pub open spec fn route_of(method: Seq<char>, path: Seq<char>) -> Route {
    if method != "GET"@ {
        Route::Unmatched
    } else if path == "/"@ {
        Route::Home
    } else if path == "/projects"@ {
        Route::Projects
    } else if path == "/api/projects"@ {
        Route::ApiProjects
    } else if item_prefix().len() <= path.len() && path.subrange(0, item_prefix().len() as int)
        == item_prefix() {
        match parse_u32(path.subrange(item_prefix().len() as int, path.len() as int)) {
            Some(id) => Route::ApiProject(id),
            None => Route::Unmatched,
        }
    } else {
        Route::Unmatched
    }
}

/// The first project of `c` with the given id.
pub open spec fn lookup(c: Seq<ProjectView>, id: u32) -> Option<ProjectView>
    decreases c.len(),
{
    if c.len() == 0 {
        None
    } else if c[0].id == id {
        Some(c[0])
    } else {
        lookup(c.drop_first(), id)
    }
}

/// The answer owed to each route.
pub open spec fn route_response(r: Route) -> ResponseView {
    match r {
        Route::Home => ResponseView { status: 200, content_type: HTML_TYPE@, body: home_page() },
        Route::Projects => ResponseView {
            status: 200,
            content_type: HTML_TYPE@,
            body: projects_page(seed_catalog()),
        },
        Route::ApiProjects => ResponseView {
            status: 200,
            content_type: JSON_TYPE@,
            body: projects_json(seed_catalog()),
        },
        Route::ApiProject(id) => match lookup(seed_catalog(), id) {
            Some(p) => ResponseView { status: 200, content_type: JSON_TYPE@, body: project_json(p) },
            None => ResponseView { status: 404, content_type: JSON_TYPE@, body: not_found_json() },
        },
        Route::Unmatched => ResponseView { status: 404, content_type: Seq::empty(), body: Seq::empty() },
    }
}

/// Whether `p` is a prefix of `s`.
fn starts_with(s: &str, p: &str) -> (r: bool)
    ensures
        r == (p@.len() <= s@.len() && s@.subrange(0, p@.len() as int) == p@),
{
    let n = p.unicode_len();
    if s.unicode_len() < n {
        return false;
    }
    let mut i: usize = 0;
    while i < n
        invariant
            n == p@.len(),
            n <= s@.len(),
            i <= n,
            forall|j: int| 0 <= j < i ==> s@[j] == p@[j],
        decreases n - i,
    {
        if s.get_char(i) != p.get_char(i) {
            assert(s@.subrange(0, n as int)[i as int] != p@[i as int]);
            return false;
        }
        i = i + 1;
    }
    assert(s@.subrange(0, n as int) =~= p@);
    true
}

/// Whether two texts are equal.
fn same_text(s: &str, p: &str) -> (r: bool)
    ensures
        r == (s@ == p@),
{
    if s.unicode_len() != p.unicode_len() {
        return false;
    }
    assert(s@.subrange(0, p@.len() as int) =~= s@);
    starts_with(s, p)
}

/// Finds the route of a request.
pub fn match_route(method: &str, path: &str) -> (r: Route)
    ensures
        r == route_of(method@, path@),
{
    if !same_text(method, "GET") {
        Route::Unmatched
    } else if same_text(path, "/") {
        Route::Home
    } else if same_text(path, "/projects") {
        Route::Projects
    } else if same_text(path, "/api/projects") {
        Route::ApiProjects
    } else if starts_with(path, "/api/projects/") {
        let start = "/api/projects/".unicode_len();
        let seg = path.substring_char(start, path.unicode_len());
        match parse_id(seg) {
            Some(id) => Route::ApiProject(id),
            None => Route::Unmatched,
        }
    } else {
        Route::Unmatched
    }
}

/// The landing page.
pub fn home() -> (r: Response)
    ensures
        r@ == route_response(Route::Home),
{
    Response { status: 200, content_type: HTML_TYPE.to_owned(), body: home_html() }
}

/// The page listing every project of the catalog.
pub fn projects() -> (r: Response)
    ensures
        r@ == route_response(Route::Projects),
{
    let ps = get_projects();
    Response { status: 200, content_type: HTML_TYPE.to_owned(), body: projects_html(&ps) }
}

/// The whole catalog as a JSON array.
pub fn api_projects() -> (r: Response)
    ensures
        r@ == route_response(Route::ApiProjects),
{
    let ps = get_projects();
    Response { status: 200, content_type: JSON_TYPE.to_owned(), body: projects_to_json(&ps) }
}

proof fn lookup_first(c: Seq<ProjectView>, id: u32, i: int)
    requires
        0 <= i < c.len(),
        c[i].id == id,
        forall|j: int| 0 <= j < i ==> c[j].id != id,
    ensures
        lookup(c, id) == Some(c[i]),
    decreases i,
{
    if i > 0 {
        lookup_first(c.drop_first(), id, i - 1);
    }
}

/// No entry has the id: the lookup finds nothing.
pub proof fn lookup_none(c: Seq<ProjectView>, id: u32)
    requires
        forall|j: int| 0 <= j < c.len() ==> c[j].id != id,
    ensures
        lookup(c, id) is None,
    decreases c.len(),
{
    if c.len() > 0 {
        lookup_none(c.drop_first(), id);
    }
}

/// The project with the given id as JSON, or a not-found answer.
pub fn api_project(id: u32) -> (r: Response)
    ensures
        r@ == route_response(Route::ApiProject(id)),
{
    let ps = get_projects();
    let ghost c = catalog_view(ps@);
    match find_project(&ps, id) {
        Some(i) => {
            proof {
                assert(c[i as int] == ps@[i as int]@);
                assert forall|j: int| 0 <= j < i implies c[j].id != id by {
                    assert(c[j] == ps@[j]@);
                }
                lookup_first(c, id, i as int);
            }
            Response {
                status: 200,
                content_type: JSON_TYPE.to_owned(),
                body: project_to_json(&ps[i]),
            }
        },
        None => {
            proof {
                assert forall|j: int| 0 <= j < c.len() implies c[j].id != id by {
                    assert(c[j] == ps@[j]@);
                }
                lookup_none(c, id);
            }
            Response { status: 404, content_type: JSON_TYPE.to_owned(), body: not_found_body() }
        },
    }
}

/// Answers a request for anything the table does not route.
pub fn unmatched() -> (r: Response)
    ensures
        r@ == route_response(Route::Unmatched),
{
    Response { status: 404, content_type: String::new(), body: String::new() }
}

/// Answers a GET request, or any other, by the route table.
pub fn handle(method: &str, path: &str) -> (r: Response)
    ensures
        r@ == route_response(route_of(method@, path@)),
{
    match match_route(method, path) {
        Route::Home => home(),
        Route::Projects => projects(),
        Route::ApiProjects => api_projects(),
        Route::ApiProject(id) => api_project(id),
        Route::Unmatched => unmatched(),
    }
}

} // verus!
