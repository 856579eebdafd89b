use vstd::prelude::*;

verus! {

/// One entry of the portfolio.
pub struct Project {
    pub id: u32,
    pub title: String,
    pub description: String,
    pub technologies: Vec<String>,
    pub github_url: Option<String>,
    pub demo_url: Option<String>,
}

/// What a `Project` holds, as mathematical values.
pub struct ProjectView {
    pub id: u32,
    pub title: Seq<char>,
    pub description: Seq<char>,
    pub technologies: Seq<Seq<char>>,
    pub github_url: Option<Seq<char>>,
    pub demo_url: Option<Seq<char>>,
}

pub open spec fn opt_text(o: Option<String>) -> Option<Seq<char>> {
    match o {
        Some(s) => Some(s@),
        None => None,
    }
}

pub open spec fn texts(v: Seq<String>) -> Seq<Seq<char>> {
    v.map_values(|s: String| s@)
}

impl View for Project {
    type V = ProjectView;

    open spec fn view(&self) -> ProjectView {
        ProjectView {
            id: self.id,
            title: self.title@,
            description: self.description@,
            technologies: texts(self.technologies@),
            github_url: opt_text(self.github_url),
            demo_url: opt_text(self.demo_url),
        }
    }
}

/// The views of a sequence of projects, in order.
pub open spec fn catalog_view(v: Seq<Project>) -> Seq<ProjectView> {
    v.map_values(|p: Project| p@)
}

/// No two entries share an id.
pub open spec fn ids_unique(c: Seq<ProjectView>) -> bool {
    forall|i: int, j: int| 0 <= i < c.len() && 0 <= j < c.len() && i != j ==> c[i].id != c[j].id
}

/// Whether some entry has the given id.
pub open spec fn has_id(c: Seq<ProjectView>, id: u32) -> bool {
    exists|i: int| 0 <= i < c.len() && c[i].id == id
}

pub open spec fn first_project() -> ProjectView {
    ProjectView {
        id: 1,
        title: "Prime Number Generator"@,
        description: "A simple prime number generator in Rust."@,
        technologies: seq!["Rust"@],
        github_url: Some("https://github.com/jacob/hello_world"@),
        demo_url: None,
    }
}

pub open spec fn second_project() -> ProjectView {
    ProjectView {
        id: 2,
        title: "Portfolio Website"@,
        description: "A modern portfolio website built with Actix-web."@,
        technologies: seq!["Rust"@, "Actix-web"@, "HTML"@],
        github_url: Some("https://github.com/jacob/portfolio_website"@),
        demo_url: Some("https://portfolio.example.com"@),
    }
}

/// The catalog, in display order.
pub open spec fn seed_catalog() -> Seq<ProjectView> {
    seq![first_project(), second_project()]
}

/// Builds the catalog afresh; every call gives the same records in the same order.
pub fn get_projects() -> (r: Vec<Project>)
    ensures
        catalog_view(r@) == seed_catalog(),
{
    let mut tech1: Vec<String> = Vec::new();
    tech1.push("Rust".to_owned());
    let mut tech2: Vec<String> = Vec::new();
    tech2.push("Rust".to_owned());
    tech2.push("Actix-web".to_owned());
    tech2.push("HTML".to_owned());
    let p1 = Project {
        id: 1,
        title: "Prime Number Generator".to_owned(),
        description: "A simple prime number generator in Rust.".to_owned(),
        technologies: tech1,
        github_url: Some("https://github.com/jacob/hello_world".to_owned()),
        demo_url: None,
    };
    let p2 = Project {
        id: 2,
        title: "Portfolio Website".to_owned(),
        description: "A modern portfolio website built with Actix-web.".to_owned(),
        technologies: tech2,
        github_url: Some("https://github.com/jacob/portfolio_website".to_owned()),
        demo_url: Some("https://portfolio.example.com".to_owned()),
    };
    proof {
        assert(texts(p1.technologies@) =~= first_project().technologies);
        assert(texts(p2.technologies@) =~= second_project().technologies);
    }
    let mut r: Vec<Project> = Vec::new();
    r.push(p1);
    r.push(p2);
    assert(catalog_view(r@) =~= seed_catalog());
    r
}

/// Position of the first entry with the given id, if any.
pub fn find_project(projects: &Vec<Project>, id: u32) -> (r: Option<usize>)
    ensures
        match r {
            Some(i) => i < projects@.len() && projects@[i as int].id == id && forall|j: int|
                0 <= j < i ==> projects@[j].id != id,
            None => forall|j: int| 0 <= j < projects@.len() ==> projects@[j].id != id,
        },
{
    let mut i: usize = 0;
    while i < projects.len()
        invariant
            i <= projects@.len(),
            forall|j: int| 0 <= j < i ==> projects@[j].id != id,
        decreases projects@.len() - i,
    {
        if projects[i].id == id {
            return Some(i);
        }
        i = i + 1;
    }
    None
}

/// The catalog's ids are unique.
pub proof fn seed_ids_unique()
    ensures
        ids_unique(seed_catalog()),
{
}

/// Two builds of the catalog agree: same length, same ids in the same
/// order, and equal records field by field.
pub proof fn catalog_is_deterministic(a: Seq<Project>, b: Seq<Project>)
    requires
        catalog_view(a) == seed_catalog(),
        catalog_view(b) == seed_catalog(),
    ensures
        a.len() == b.len(),
        forall|i: int| #![trigger a[i]] 0 <= i < a.len() ==> a[i].id == b[i].id && a[i]@ == b[i]@,
{
    assert(a.len() == catalog_view(a).len());
    assert(b.len() == catalog_view(b).len());
    assert forall|i: int| #![trigger a[i]] 0 <= i < a.len() implies a[i].id == b[i].id && a[i]@
        == b[i]@ by {
        assert(catalog_view(a)[i] == a[i]@);
        assert(catalog_view(b)[i] == b[i]@);
    }
}

} // verus!
