use vstd::prelude::*;
use crate::catalog::{Project, ProjectView, catalog_view, texts, opt_text};
use crate::text::{escape_html, push_escaped};

verus! {

/// Document start and styles of the landing page.
pub const HOME_HEAD: &'static str = r#"<!DOCTYPE html>
<html>
<head>
    <meta charset="UTF-8">
    <meta name="viewport" content="width=device-width, initial-scale=1.0">
    <title>Jacob's Portfolio</title>
    <style>
        * { margin: 0; padding: 0; box-sizing: border-box; }
        body {
            font-family: 'Segoe UI', Tahoma, Geneva, Verdana, sans-serif;
            line-height: 1.6;
            color: #333;
            background: linear-gradient(135deg, #667eea 0%, #764ba2 100%);
            min-height: 100vh;
            display: flex;
            flex-direction: column;
        }
        nav {
            background: rgba(0,0,0,0.1);
            padding: 1rem 2rem;
            display: flex;
            justify-content: space-between;
            align-items: center;
            backdrop-filter: blur(10px);
        }
        nav a { color: white; text-decoration: none; margin: 0 1rem; font-weight: 500; }
        .container { max-width: 1200px; margin: 0 auto; padding: 2rem; flex: 1; }
        .hero { text-align: center; color: white; margin: 3rem 0; }
        .hero h1 { font-size: 3rem; margin-bottom: 1rem; }
        .hero p { font-size: 1.3rem; opacity: 0.9; margin-bottom: 2rem; }
        .btn {
            display: inline-block;
            background: white;
            color: #667eea;
            padding: 0.8rem 2rem;
            border-radius: 5px;
            text-decoration: none;
            font-weight: bold;
            transition: transform 0.3s;
        }
        .btn:hover { transform: translateY(-2px); }
        footer { background: rgba(0,0,0,0.2); color: white; text-align: center; padding: 2rem; }
    </style>
</head>
"#;

/// Document start and styles of the project page.
pub const PROJECTS_HEAD: &'static str = r#"<!DOCTYPE html>
<html>
<head>
    <meta charset="UTF-8">
    <meta name="viewport" content="width=device-width, initial-scale=1.0">
    <title>My Projects</title>
    <style>
        * { margin: 0; padding: 0; box-sizing: border-box; }
        body {
            font-family: 'Segoe UI', Tahoma, Geneva, Verdana, sans-serif;
            line-height: 1.6;
            color: #333;
            background: linear-gradient(135deg, #667eea 0%, #764ba2 100%);
            min-height: 100vh;
        }
        nav {
            background: rgba(0,0,0,0.1);
            padding: 1rem 2rem;
            display: flex;
            justify-content: space-between;
            align-items: center;
            backdrop-filter: blur(10px);
        }
        nav a { color: white; text-decoration: none; margin: 0 1rem; font-weight: 500; }
        .container { max-width: 1200px; margin: 0 auto; padding: 2rem; }
        h1 { color: white; margin-bottom: 2rem; font-size: 2.5rem; }
        .projects-grid {
            display: grid;
            grid-template-columns: repeat(auto-fit, minmax(350px, 1fr));
            gap: 2rem;
        }
        .project-card {
            background: white;
            padding: 2rem;
            border-radius: 8px;
            box-shadow: 0 8px 16px rgba(0,0,0,0.1);
            transition: all 0.3s;
        }
        .project-card:hover { transform: translateY(-8px); box-shadow: 0 12px 24px rgba(0,0,0,0.15); }
        .project-card h3 { color: #667eea; margin-bottom: 0.5rem; font-size: 1.5rem; }
        .project-card p { color: #666; margin-bottom: 1rem; }
        .technologies { margin: 1rem 0; }
        .tech-tag {
            display: inline-block;
            background: #667eea;
            color: white;
            padding: 0.4rem 0.8rem;
            border-radius: 3px;
            font-size: 0.85rem;
            margin-right: 0.5rem;
            margin-bottom: 0.5rem;
        }
        .links { margin-top: 1.5rem; display: flex; gap: 1rem; }
        .links a {
            display: inline-block;
            background: #667eea;
            color: white;
            padding: 0.6rem 1.2rem;
            border-radius: 4px;
            text-decoration: none;
            font-weight: 500;
            transition: background 0.3s;
        }
        .links a:hover { background: #764ba2; }
        footer { background: rgba(0,0,0,0.2); color: white; text-align: center; padding: 2rem; margin-top: 3rem; }
    </style>
</head>
"#;

/// The navigation bar shared by both pages.
pub const NAV: &'static str = r#"<body>
    <nav>
        <h2 style="color: white;">Portfolio</h2>
        <div>
            <a href="/">Home</a>
            <a href="/projects">Projects</a>
        </div>
    </nav>
"#;

/// The hero section of the landing page.
pub const HERO: &'static str = r#"    <div class="container">
        <div class="hero">
            <h1>Hello, I'm Jacob</h1>
            <p>Hobbyist showcasing some projects</p>
            <a href="/projects" class="btn">View My Work</a>
        </div>
    </div>
"#;

/// The footer shared by both pages, and the end of the document.
pub const FOOTER: &'static str = r#"    <footer>
        <p>&copy; 2025 Jacob's Portfolio. All rights reserved.</p>
    </footer>
</body>
</html>
"#;

pub const GRID_OPEN: &'static str = r#"    <div class="container">
        <h1>My Projects</h1>
        <div class="projects-grid">
"#;

pub const GRID_CLOSE: &'static str = r#"        </div>
    </div>
"#;

pub const CARD_OPEN: &'static str = r#"            <div class="project-card">
                <h3>"#;

pub const CARD_TITLE_END: &'static str = r#"</h3>
                <p>"#;

pub const CARD_TEXT_END: &'static str = r#"</p>
                <div class="technologies">"#;

pub const TAG_OPEN: &'static str = r#"<span class="tech-tag">"#;

pub const TAG_CLOSE: &'static str = "</span>";

pub const CARD_LINKS: &'static str = r#"</div>
                <div class="links">"#;

pub const LINK_OPEN: &'static str = r#"<a href=""#;

pub const GITHUB_LINK_END: &'static str = r#"" target="_blank">GitHub</a>"#;

pub const DEMO_LINK_END: &'static str = r#"" target="_blank">Live Demo</a>"#;

pub const CARD_CLOSE: &'static str = r#"</div>
            </div>
"#;

/// The landing page: no catalog content.
pub open spec fn home_page() -> Seq<char> {
    HOME_HEAD@ + NAV@ + HERO@ + FOOTER@
}

/// One technology label.
pub open spec fn tag_html(t: Seq<char>) -> Seq<char> {
    TAG_OPEN@ + escape_html(t) + TAG_CLOSE@
}

/// The labels of all technologies, left to right.
pub open spec fn tags_html(ts: Seq<Seq<char>>) -> Seq<char>
    decreases ts.len(),
{
    if ts.len() == 0 {
        Seq::empty()
    } else {
        tags_html(ts.drop_last()) + tag_html(ts.last())
    }
}

/// A link with the given closing text, or nothing when the URL is absent.
pub open spec fn link_html(url: Option<Seq<char>>, end: Seq<char>) -> Seq<char> {
    match url {
        Some(u) => LINK_OPEN@ + escape_html(u) + end,
        None => Seq::empty(),
    }
}

/// The card of one project.
pub open spec fn card_html(p: ProjectView) -> Seq<char> {
    CARD_OPEN@ + escape_html(p.title) + CARD_TITLE_END@ + escape_html(p.description)
        + CARD_TEXT_END@ + tags_html(p.technologies) + CARD_LINKS@ + link_html(
        p.github_url,
        GITHUB_LINK_END@,
    ) + link_html(p.demo_url, DEMO_LINK_END@) + CARD_CLOSE@
}

/// The cards of all projects, in catalog order.
pub open spec fn cards_html(c: Seq<ProjectView>) -> Seq<char>
    decreases c.len(),
{
    if c.len() == 0 {
        Seq::empty()
    } else {
        cards_html(c.drop_last()) + card_html(c.last())
    }
}

/// The project page for a catalog.
pub open spec fn projects_page(c: Seq<ProjectView>) -> Seq<char> {
    PROJECTS_HEAD@ + NAV@ + GRID_OPEN@ + cards_html(c) + GRID_CLOSE@ + FOOTER@
}

/// Builds the landing page.
pub fn home_html() -> (r: String)
    ensures
        r@ == home_page(),
{
    let mut out = HOME_HEAD.to_owned();
    out.append(NAV);
    out.append(HERO);
    out.append(FOOTER);
    out
}

fn push_link(out: &mut String, url: &Option<String>, end: &str)
    ensures
        final(out)@ == old(out)@ + link_html(opt_text(*url), end@),
{
    match url {
        Some(u) => {
            let ghost start = out@;
            out.append(LINK_OPEN);
            push_escaped(out, u.as_str());
            out.append(end);
            assert(out@ =~= start + link_html(opt_text(*url), end@));
        },
        None => {
            assert(out@ =~= old(out)@ + link_html(opt_text(*url), end@));
        },
    }
}

fn push_card(out: &mut String, p: &Project)
    ensures
        final(out)@ == old(out)@ + card_html(p@),
{
    let ghost start = out@;
    let ghost ts = texts(p.technologies@);
    out.append(CARD_OPEN);
    push_escaped(out, p.title.as_str());
    out.append(CARD_TITLE_END);
    push_escaped(out, p.description.as_str());
    out.append(CARD_TEXT_END);
    let ghost before_tags = out@;
    let mut i: usize = 0;
    while i < p.technologies.len()
        invariant
            i <= ts.len(),
            ts == texts(p.technologies@),
            out@ == before_tags + tags_html(ts.subrange(0, i as int)),
        decreases ts.len() - i,
    {
        out.append(TAG_OPEN);
        push_escaped(out, p.technologies[i].as_str());
        out.append(TAG_CLOSE);
        proof {
            let next = ts.subrange(0, i + 1);
            assert(next.drop_last() =~= ts.subrange(0, i as int));
            assert(next.last() == p.technologies@[i as int]@);
        }
        assert(out@ =~= before_tags + tags_html(ts.subrange(0, i + 1)));
        i = i + 1;
    }
    assert(ts.subrange(0, ts.len() as int) =~= ts);
    out.append(CARD_LINKS);
    push_link(out, &p.github_url, GITHUB_LINK_END);
    push_link(out, &p.demo_url, DEMO_LINK_END);
    out.append(CARD_CLOSE);
    assert(out@ =~= start + card_html(p@));
}

/// Builds the project page: one card per project, in the given order.
pub fn projects_html(ps: &Vec<Project>) -> (r: String)
    ensures
        r@ == projects_page(catalog_view(ps@)),
{
    let ghost c = catalog_view(ps@);
    let mut out = PROJECTS_HEAD.to_owned();
    out.append(NAV);
    out.append(GRID_OPEN);
    let ghost before_cards = out@;
    let mut i: usize = 0;
    while i < ps.len()
        invariant
            i <= c.len(),
            c == catalog_view(ps@),
            out@ == before_cards + cards_html(c.subrange(0, i as int)),
            before_cards == PROJECTS_HEAD@ + NAV@ + GRID_OPEN@,
        decreases c.len() - i,
    {
        push_card(&mut out, &ps[i]);
        proof {
            let next = c.subrange(0, i + 1);
            assert(next.drop_last() =~= c.subrange(0, i as int));
            assert(next.last() == ps@[i as int]@);
        }
        assert(out@ =~= before_cards + cards_html(c.subrange(0, i + 1)));
        i = i + 1;
    }
    assert(c.subrange(0, c.len() as int) =~= c);
    out.append(GRID_CLOSE);
    out.append(FOOTER);
    out
}

} // verus!
