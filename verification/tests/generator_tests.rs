use markdown_site::generator::MarkdownSiteGenerator;
use markdown_site::render::{RenderError, RenderNode};
use markdown_site::store::TextStore;

fn store(entries: Vec<(&str, &str)>) -> TextStore {
    let mut s = TextStore::new();
    for (k, v) in entries {
        s.add(k.to_string(), v.to_string());
    }
    s
}

#[test]
fn default_directories() {
    let g = MarkdownSiteGenerator::default();
    assert_eq!(g.content, "./content");
    assert_eq!(g.templates, "./templates");
    assert_eq!(g.output, "./public");
}

#[test]
fn with_dirs_overrides_and_defaults() {
    let g = MarkdownSiteGenerator::with_dirs(Some("c"), None, Some("o"));
    assert_eq!(g.content, "c");
    assert_eq!(g.templates, "./templates");
    assert_eq!(g.output, "o");
}

#[test]
fn path_conventions() {
    let g = MarkdownSiteGenerator::with_dirs(Some("c"), Some("t"), Some("o"));
    assert_eq!(g.template_file_path(&"page".to_string()), "t/page.html");
    assert_eq!(g.content_file_path(&"post".to_string()), "c/post.md");
    assert_eq!(g.output_file_path(&"index".to_string()), "o/index.html");
    assert_eq!(
        g.output_folder_file_path(&"blog".to_string(), &"a".to_string()),
        "o/blog/a.html"
    );
}

#[test]
fn emit_file_plan_renders_and_places() {
    let g = MarkdownSiteGenerator::with_dirs(Some("c"), Some("t"), Some("out"));
    let ts = store(vec![("home", "welcome")]);
    let n = RenderNode::Leaf { template: "home".to_string() };
    let (path, html) = g.emit_file_plan(&"index".to_string(), &n, &ts).unwrap();
    assert_eq!(path, "out/index.html");
    assert_eq!(html, "welcome");
}

#[test]
fn emit_file_plan_fails_closed() {
    let g = MarkdownSiteGenerator::default();
    let ts = store(vec![]);
    let n = RenderNode::Leaf { template: "missing".to_string() };
    let r = g.emit_file_plan(&"index".to_string(), &n, &ts);
    assert!(matches!(r, Err(RenderError::TemplateNotFound(ref s)) if s == "missing"));
}

#[test]
fn folder_plan_mirrors_stems() {
    let g = MarkdownSiteGenerator::with_dirs(Some("c"), Some("t"), Some("out"));
    let ts = store(vec![("article", "<p>{{title}}</p>")]);
    let cs = store(vec![
        ("a", "---\ntitle: \"A\"\n---\nalpha"),
        ("b", "---\ntitle: \"B\"\n---\nbeta"),
    ]);
    let n = RenderNode::Leaf { template: "article".to_string() };
    let stems = vec!["a".to_string(), "b".to_string()];
    let plan = g
        .emit_folder_plan(&"blog".to_string(), &stems, &n, &ts, &cs)
        .unwrap();
    assert_eq!(plan.len(), 2);
    assert_eq!(plan[0].0, "out/blog/a.html");
    assert_eq!(plan[1].0, "out/blog/b.html");
    assert_eq!(plan[0].1, "<p>A</p>");
    assert_eq!(plan[1].1, "<p>B</p>");
}

#[test]
fn folder_plan_fails_on_missing_stem() {
    let g = MarkdownSiteGenerator::default();
    let ts = store(vec![("article", "x")]);
    let cs = store(vec![("a", "---\nt: 1\n---\nalpha")]);
    let n = RenderNode::Leaf { template: "article".to_string() };
    let stems = vec!["a".to_string(), "gone".to_string()];
    let r = g.emit_folder_plan(&"blog".to_string(), &stems, &n, &ts, &cs);
    assert!(matches!(r, Err(RenderError::ContentFileNotFound(ref s)) if s == "gone"));
}
