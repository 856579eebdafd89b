use vstd::prelude::*;
use crate::catalog::{Project, ProjectView, catalog_view, texts, opt_text};
use crate::text::{decimal, decimal_string};

verus! {

/// What serde_json writes for a string: the text in double quotes, with
/// quotes, backslashes and control characters escaped.
pub uninterp spec fn json_quoted(s: Seq<char>) -> Seq<char>;

/// Whether serde_json leaves `c` as it is inside a string.
pub open spec fn json_plain(c: char) -> bool {
    c != '"' && c != '\\' && c >= ' '
}

/// Relies on serde_json::to_string on a `str`: a quoted JSON string that
/// depends on the text alone, holding the text itself when no character
/// needs an escape. The writer is a `Vec<u8>`, which cannot fail, so the
/// default never stands.
#[verifier::external_body]
fn quote_json(s: &str) -> (r: String)
    ensures
        r@ == json_quoted(s@),
        (forall|i: int| 0 <= i < s@.len() ==> json_plain(#[trigger] s@[i])) ==> r@ == seq!['"']
            + s@ + seq!['"'],
{
    serde_json::to_string(s).unwrap_or_default()
}

/// Elements joined by commas.
pub open spec fn json_join(items: Seq<Seq<char>>) -> Seq<char>
    decreases items.len(),
{
    if items.len() == 0 {
        Seq::empty()
    } else if items.len() == 1 {
        items[0]
    } else {
        json_join(items.drop_last()) + ","@ + items.last()
    }
}

/// A JSON array of already encoded elements.
pub open spec fn json_array(items: Seq<Seq<char>>) -> Seq<char> {
    "["@ + json_join(items) + "]"@
}

/// A JSON string, or `null` when absent.
pub open spec fn json_opt(o: Option<Seq<char>>) -> Seq<char> {
    match o {
        Some(s) => json_quoted(s),
        None => "null"@,
    }
}

pub open spec fn json_strings(v: Seq<Seq<char>>) -> Seq<Seq<char>> {
    v.map_values(|t: Seq<char>| json_quoted(t))
}

/// The text with which every encoded project starts: its id.
pub open spec fn json_id_prefix(id: u32) -> Seq<char> {
    "{\"id\":"@ + decimal(id as nat)
}

/// One project as a JSON object: all six fields, in declaration order.
pub open spec fn project_json(p: ProjectView) -> Seq<char> {
    json_id_prefix(p.id) + ",\"title\":"@ + json_quoted(p.title) + ",\"description\":"@
        + json_quoted(p.description) + ",\"technologies\":"@ + json_array(
        json_strings(p.technologies),
    ) + ",\"github_url\":"@ + json_opt(p.github_url) + ",\"demo_url\":"@ + json_opt(p.demo_url)
        + "}"@
}

pub open spec fn projects_json_items(c: Seq<ProjectView>) -> Seq<Seq<char>> {
    c.map_values(|p: ProjectView| project_json(p))
}

/// A list of projects as a JSON array, in order.
pub open spec fn projects_json(c: Seq<ProjectView>) -> Seq<char> {
    json_array(projects_json_items(c))
}

/// The body answered for an id that no project has.
pub open spec fn not_found_json() -> Seq<char> {
    "{\"error\":\"Project not found\"}"@
}

proof fn join_step(items: Seq<Seq<char>>, i: int)
    requires
        0 <= i < items.len(),
    ensures
        json_join(items.subrange(0, i + 1)) == if i == 0 {
            items[0]
        } else {
            json_join(items.subrange(0, i)) + ","@ + items[i]
        },
{
    let next = items.subrange(0, i + 1);
    assert(next.drop_last() =~= items.subrange(0, i));
}

fn push_opt(out: &mut String, o: &Option<String>)
    ensures
        final(out)@ == old(out)@ + json_opt(opt_text(*o)),
{
    match o {
        Some(s) => {
            let q = quote_json(s.as_str());
            out.append(q.as_str());
        },
        None => {
            out.append("null");
        },
    }
}

fn push_string_array(out: &mut String, v: &Vec<String>)
    ensures
        final(out)@ == old(out)@ + json_array(json_strings(texts(v@))),
{
    let ghost start = out@;
    let ghost items = json_strings(texts(v@));
    out.append("[");
    let mut i: usize = 0;
    while i < v.len()
        invariant
            i <= v@.len(),
            items == json_strings(texts(v@)),
            out@ == start + "["@ + json_join(items.subrange(0, i as int)),
        decreases v@.len() - i,
    {
        proof {
            join_step(items, i as int);
        }
        if i > 0 {
            out.append(",");
        }
        let q = quote_json(v[i].as_str());
        out.append(q.as_str());
        assert(items[i as int] == q@);
        assert(out@ =~= start + "["@ + json_join(items.subrange(0, i + 1)));
        i = i + 1;
    }
    assert(items.subrange(0, v@.len() as int) =~= items);
    out.append("]");
}

fn push_project(out: &mut String, p: &Project)
    ensures
        final(out)@ == old(out)@ + project_json(p@),
{
    let ghost start = out@;
    out.append("{\"id\":");
    let id = decimal_string(p.id);
    out.append(id.as_str());
    out.append(",\"title\":");
    let t = quote_json(p.title.as_str());
    out.append(t.as_str());
    out.append(",\"description\":");
    let d = quote_json(p.description.as_str());
    out.append(d.as_str());
    out.append(",\"technologies\":");
    push_string_array(out, &p.technologies);
    out.append(",\"github_url\":");
    push_opt(out, &p.github_url);
    out.append(",\"demo_url\":");
    push_opt(out, &p.demo_url);
    out.append("}");
    assert(out@ =~= start + project_json(p@));
}

/// One project encoded as a JSON object.
pub fn project_to_json(p: &Project) -> (r: String)
    ensures
        r@ == project_json(p@),
{
    let mut out = String::new();
    push_project(&mut out, p);
    assert(out@ =~= project_json(p@));
    out
}

/// A list of projects encoded as a JSON array, in order.
pub fn projects_to_json(ps: &Vec<Project>) -> (r: String)
    ensures
        r@ == projects_json(catalog_view(ps@)),
{
    let ghost items = projects_json_items(catalog_view(ps@));
    let mut out = String::new();
    out.append("[");
    let mut i: usize = 0;
    while i < ps.len()
        invariant
            i <= ps@.len(),
            items == projects_json_items(catalog_view(ps@)),
            out@ == "["@ + json_join(items.subrange(0, i as int)),
        decreases ps@.len() - i,
    {
        proof {
            join_step(items, i as int);
        }
        if i > 0 {
            out.append(",");
        }
        push_project(&mut out, &ps[i]);
        assert(items[i as int] == project_json(ps@[i as int]@));
        assert(out@ =~= "["@ + json_join(items.subrange(0, i + 1)));
        i = i + 1;
    }
    assert(items.subrange(0, ps@.len() as int) =~= items);
    out.append("]");
    out
}

/// The body answered for an id that no project has.
pub fn not_found_body() -> (r: String)
    ensures
        r@ == not_found_json(),
{
    "{\"error\":\"Project not found\"}".to_owned()
}

} // verus!
