use vstd::prelude::*;
use crate::catalog::{ProjectView, seed_catalog, has_id};
use crate::json::{
    json_array, json_id_prefix, project_json, projects_json, projects_json_items, not_found_json,
};
use crate::routes::{
    Route, ResponseView, JSON_TYPE, route_of, route_response, lookup, lookup_none, parse_u32,
    item_prefix,
};

verus! {

/// Where some entry has the id, the lookup finds an entry of the catalog with that id.
pub proof fn lookup_finds(c: Seq<ProjectView>, id: u32)
    requires
        has_id(c, id),
    ensures
        lookup(c, id) is Some,
        lookup(c, id)->Some_0.id == id,
        c.contains(lookup(c, id)->Some_0),
    decreases c.len(),
{
    if c[0].id != id {
        let i = choose|i: int| 0 <= i < c.len() && c[i].id == id;
        let rest = c.drop_first();
        assert(rest[i - 1] == c[i]);
        lookup_finds(rest, id);
        let p = lookup(rest, id)->Some_0;
        let k = choose|k: int| 0 <= k < rest.len() && rest[k] == p;
        assert(c[k + 1] == p);
    }
}

/// The JSON list holds one element per catalog entry, in catalog order,
/// and the i-th element carries the id of the i-th entry.
pub proof fn json_list_follows_catalog(c: Seq<ProjectView>)
    ensures
        projects_json(c) == json_array(projects_json_items(c)),
        projects_json_items(c).len() == c.len(),
        forall|i: int|
            0 <= i < c.len() ==> {
                let e = #[trigger] projects_json_items(c)[i];
                let pre = json_id_prefix(c[i].id);
                pre.len() <= e.len() && e.subrange(0, pre.len() as int) == pre
            },
{
    assert forall|i: int| 0 <= i < c.len() implies {
        let e = #[trigger] projects_json_items(c)[i];
        let pre = json_id_prefix(c[i].id);
        pre.len() <= e.len() && e.subrange(0, pre.len() as int) == pre
    } by {
        let e = projects_json_items(c)[i];
        let pre = json_id_prefix(c[i].id);
        assert(e == project_json(c[i]));
        assert(e.subrange(0, pre.len() as int) =~= pre);
    }
}

/// The list endpoint answers 200 with the whole catalog, one element per
/// entry in catalog order.
pub proof fn api_list_is_catalog()
    ensures
        route_response(Route::ApiProjects).status == 200,
        route_response(Route::ApiProjects).body == json_array(projects_json_items(seed_catalog())),
        projects_json_items(seed_catalog()).len() == seed_catalog().len(),
        forall|i: int|
            0 <= i < seed_catalog().len() ==> #[trigger] projects_json_items(seed_catalog())[i]
                == project_json(seed_catalog()[i]),
{
    json_list_follows_catalog(seed_catalog());
}

/// For an id that the catalog holds, the item endpoint answers 200 with the
/// JSON of an entry that has that id.
pub proof fn present_id_is_served(id: u32)
    requires
        has_id(seed_catalog(), id),
    ensures
        route_response(Route::ApiProject(id)).status == 200,
        exists|p: ProjectView|
            seed_catalog().contains(p) && p.id == id && route_response(Route::ApiProject(id)).body
                == project_json(p),
{
    lookup_finds(seed_catalog(), id);
    let p = lookup(seed_catalog(), id)->Some_0;
    assert(seed_catalog().contains(p) && p.id == id);
}

/// For an id that the catalog lacks, the item endpoint answers 404 with the
/// not-found body.
pub proof fn absent_id_is_not_found(id: u32)
    requires
        !has_id(seed_catalog(), id),
    ensures
        route_response(Route::ApiProject(id)) == (ResponseView {
            status: 404,
            content_type: JSON_TYPE@,
            body: not_found_json(),
        }),
{
    lookup_none(seed_catalog(), id);
}

/// A GET of an item path whose last segment is not a decimal `u32` is a
/// client error: 404, never 200.
pub proof fn non_numeric_id_is_rejected(seg: Seq<char>)
    requires
        parse_u32(seg) is None,
    ensures
        route_of("GET"@, item_prefix() + seg) == Route::Unmatched,
        route_response(route_of("GET"@, item_prefix() + seg)).status == 404,
{
    let path = item_prefix() + seg;
    reveal_strlit("/api/projects/");
    reveal_strlit("/api/projects");
    reveal_strlit("/projects");
    reveal_strlit("/");
    assert(path.len() >= 14);
    assert(path.subrange(0, item_prefix().len() as int) =~= item_prefix());
    assert(path.subrange(item_prefix().len() as int, path.len() as int) =~= seg);
}

/// Two answers to the same request are identical, status, type and body.
pub proof fn repeated_requests_agree(
    method: Seq<char>,
    path: Seq<char>,
    a: ResponseView,
    b: ResponseView,
)
    requires
        a == route_response(route_of(method, path)),
        b == route_response(route_of(method, path)),
    ensures
        a == b,
        a.body == b.body,
{
}

} // verus!
