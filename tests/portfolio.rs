use portfolio::catalog::{find_project, get_projects, Project};
use portfolio::html::{home_html, projects_html};
use portfolio::json::{not_found_body, project_to_json, projects_to_json};
use portfolio::routes::{
    api_project, api_projects, handle, home, match_route, projects, unmatched, Route,
};
use portfolio::text::{decimal_string, push_escaped};

fn sample(id: u32, title: &str) -> Project {
    Project {
        id,
        title: title.to_string(),
        description: "d".to_string(),
        technologies: vec![],
        github_url: None,
        demo_url: None,
    }
}

fn count(hay: &str, needle: &str) -> usize {
    hay.matches(needle).count()
}

#[test]
fn catalog_holds_seed_records() {
    let ps = get_projects();
    assert_eq!(ps.len(), 2);
    assert_eq!(ps[0].id, 1);
    assert_eq!(ps[0].title, "Prime Number Generator");
    assert_eq!(ps[0].description, "A simple prime number generator in Rust.");
    assert_eq!(ps[0].technologies, vec!["Rust".to_string()]);
    assert_eq!(ps[0].github_url.as_deref(), Some("https://github.com/jacob/hello_world"));
    assert_eq!(ps[0].demo_url, None);
    assert_eq!(ps[1].id, 2);
    assert_eq!(ps[1].title, "Portfolio Website");
    assert_eq!(
        ps[1].technologies,
        vec!["Rust".to_string(), "Actix-web".to_string(), "HTML".to_string()]
    );
    assert_eq!(ps[1].demo_url.as_deref(), Some("https://portfolio.example.com"));
}

#[test]
fn catalog_is_the_same_on_every_call() {
    let a = get_projects();
    let b = get_projects();
    assert_eq!(a.len(), b.len());
    for (x, y) in a.iter().zip(b.iter()) {
        assert_eq!(x.id, y.id);
        assert_eq!(x.title, y.title);
        assert_eq!(x.description, y.description);
        assert_eq!(x.technologies, y.technologies);
        assert_eq!(x.github_url, y.github_url);
        assert_eq!(x.demo_url, y.demo_url);
    }
}

#[test]
fn find_takes_first_match() {
    let ps = vec![sample(3, "a"), sample(5, "b"), sample(5, "c")];
    assert_eq!(find_project(&ps, 3), Some(0));
    assert_eq!(find_project(&ps, 5), Some(1));
    assert_eq!(find_project(&ps, 4), None);
    assert_eq!(find_project(&vec![], 1), None);
}

#[test]
fn decimal_digits() {
    assert_eq!(decimal_string(0), "0");
    assert_eq!(decimal_string(7), "7");
    assert_eq!(decimal_string(120), "120");
    assert_eq!(decimal_string(4294967295), "4294967295");
}

#[test]
fn escaping_replaces_markup_characters() {
    let mut out = String::from("x");
    push_escaped(&mut out, "a<b & \"c\" 'd'>");
    assert_eq!(out, "xa&lt;b &amp; &quot;c&quot; &#39;d&#39;&gt;");
    let mut plain = String::new();
    push_escaped(&mut plain, "");
    assert_eq!(plain, "");
}

#[test]
fn project_json_is_exact() {
    let ps = get_projects();
    assert_eq!(
        project_to_json(&ps[0]),
        r#"{"id":1,"title":"Prime Number Generator","description":"A simple prime number generator in Rust.","technologies":["Rust"],"github_url":"https://github.com/jacob/hello_world","demo_url":null}"#
    );
}

#[test]
fn json_strings_are_escaped() {
    let mut p = sample(12, "say \"hi\"\\");
    p.technologies = vec!["a\nb".to_string(), "c".to_string()];
    p.demo_url = Some("u".to_string());
    assert_eq!(
        project_to_json(&p),
        r#"{"id":12,"title":"say \"hi\"\\","description":"d","technologies":["a\nb","c"],"github_url":null,"demo_url":"u"}"#
    );
}

#[test]
fn empty_list_is_empty_array() {
    assert_eq!(projects_to_json(&vec![]), "[]");
}

#[test]
fn api_list_follows_catalog() {
    let r = api_projects();
    assert_eq!(r.status, 200);
    assert_eq!(r.content_type, "application/json");
    let v: serde_json::Value = serde_json::from_str(&r.body).unwrap();
    let arr = v.as_array().unwrap();
    let ps = get_projects();
    assert_eq!(arr.len(), ps.len());
    for (e, p) in arr.iter().zip(ps.iter()) {
        assert_eq!(e["id"].as_u64(), Some(p.id as u64));
        assert_eq!(e["title"].as_str(), Some(p.title.as_str()));
    }
    assert!(arr[0]["demo_url"].is_null());
    assert_eq!(arr[1]["technologies"].as_array().unwrap().len(), 3);
}

#[test]
fn api_item_for_present_ids() {
    for id in [1u32, 2] {
        let r = api_project(id);
        assert_eq!(r.status, 200);
        assert_eq!(r.content_type, "application/json");
        let v: serde_json::Value = serde_json::from_str(&r.body).unwrap();
        assert_eq!(v["id"].as_u64(), Some(id as u64));
    }
}

#[test]
fn api_item_for_absent_id() {
    let r = api_project(999);
    assert_eq!(r.status, 404);
    assert_eq!(r.body, r#"{"error":"Project not found"}"#);
    assert_eq!(not_found_body(), r#"{"error":"Project not found"}"#);
    assert_eq!(api_project(0).status, 404);
}

#[test]
fn non_numeric_id_is_client_error() {
    for path in ["/api/projects/abc", "/api/projects/", "/api/projects/-1", "/api/projects/1a",
        "/api/projects/4294967296", "/api/projects/1/2"]
    {
        let r = handle("GET", path);
        assert_eq!(r.status, 404, "{}", path);
        assert_eq!(r.body, "");
    }
}

#[test]
fn numeric_id_paths_reach_the_item_endpoint() {
    assert!(matches!(match_route("GET", "/api/projects/2"), Route::ApiProject(2)));
    assert!(matches!(match_route("GET", "/api/projects/+2"), Route::ApiProject(2)));
    assert!(matches!(match_route("GET", "/api/projects/007"), Route::ApiProject(7)));
    assert!(matches!(match_route("GET", "/api/projects/999"), Route::ApiProject(999)));
    assert_eq!(handle("GET", "/api/projects/999").status, 404);
    assert_eq!(handle("GET", "/api/projects/1").body, api_project(1).body);
}

#[test]
fn route_table() {
    assert!(matches!(match_route("GET", "/"), Route::Home));
    assert!(matches!(match_route("GET", "/projects"), Route::Projects));
    assert!(matches!(match_route("GET", "/api/projects"), Route::ApiProjects));
    assert!(matches!(match_route("POST", "/"), Route::Unmatched));
    assert!(matches!(match_route("GET", "/projects/"), Route::Unmatched));
    assert!(matches!(match_route("GET", "/nope"), Route::Unmatched));
    assert_eq!(handle("DELETE", "/api/projects/1").status, 404);
    let u = unmatched();
    assert_eq!(u.status, 404);
    assert_eq!(u.content_type, "");
}

#[test]
fn landing_page() {
    let r = handle("GET", "/");
    assert_eq!(r.status, 200);
    assert_eq!(r.content_type, "text/html; charset=utf-8");
    assert!(r.body.contains("Hello, I'm Jacob"));
    assert!(r.body.contains(r#"href="/projects""#));
    assert!(r.body.contains(r#"href="/""#));
    assert_eq!(r.body, home().body);
    assert_eq!(r.body, home_html());
}

#[test]
fn project_page_cards() {
    let r = projects();
    assert_eq!(r.status, 200);
    assert_eq!(r.content_type, "text/html; charset=utf-8");
    let b = &r.body;
    assert_eq!(count(b, "<h3>"), 2);
    let first = b.find("<h3>Prime Number Generator</h3>").unwrap();
    let second = b.find("<h3>Portfolio Website</h3>").unwrap();
    assert!(first < second);
    assert_eq!(count(b, ">GitHub</a>"), 2);
    assert_eq!(count(b, ">Live Demo</a>"), 1);
    let demo = b.find(r#"<a href="https://portfolio.example.com" target="_blank">Live Demo</a>"#).unwrap();
    assert!(demo > second);
    assert!(b.contains(r#"<a href="https://github.com/jacob/hello_world" target="_blank">GitHub</a>"#));
    assert_eq!(count(b, r#"<span class="tech-tag">Rust</span>"#), 2);
    let a = b.find(r#"<span class="tech-tag">Actix-web</span>"#).unwrap();
    let h = b.find(r#"<span class="tech-tag">HTML</span>"#).unwrap();
    assert!(a < h);
    assert!(b.contains(r#"href="/projects""#));
}

#[test]
fn project_page_escapes_text() {
    let mut p = sample(1, "<b>Tom & Jerry</b>");
    p.github_url = Some("https://x.test/?a=1&b=\"2\"".to_string());
    let page = projects_html(&vec![p]);
    assert!(page.contains("<h3>&lt;b&gt;Tom &amp; Jerry&lt;/b&gt;</h3>"));
    assert!(page.contains(r#"<a href="https://x.test/?a=1&amp;b=&quot;2&quot;" target="_blank">GitHub</a>"#));
    assert!(!page.contains("Live Demo"));
    let empty = projects_html(&vec![]);
    assert_eq!(count(&empty, "<h3>"), 0);
}

#[test]
fn repeated_requests_give_identical_bodies() {
    for path in ["/", "/projects", "/api/projects", "/api/projects/1", "/api/projects/999"] {
        let a = handle("GET", path);
        let b = handle("GET", path);
        assert_eq!(a.status, b.status);
        assert_eq!(a.content_type, b.content_type);
        assert_eq!(a.body, b.body);
    }
}
