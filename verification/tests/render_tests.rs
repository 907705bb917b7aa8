use markdown_site::data::DataTree;
use markdown_site::render::{RenderError, RenderNode};
use markdown_site::store::TextStore;

fn store(entries: Vec<(&str, &str)>) -> TextStore {
    let mut s = TextStore::new();
    for (k, v) in entries {
        s.add(k.to_string(), v.to_string());
    }
    s
}

fn leaf(template: &str) -> RenderNode {
    RenderNode::Leaf { template: template.to_string() }
}

#[test]
fn leaf_render_plain_template() {
    let ts = store(vec![("hello", "hello world")]);
    let r = leaf("hello").render(&ts).unwrap();
    assert_eq!(r, "hello world");
}

#[test]
fn leaf_render_deterministic() {
    let ts = store(vec![("page", "a {{x}} b")]);
    let n = leaf("page");
    let first = n.render(&ts).unwrap();
    let second = n.render(&ts).unwrap();
    assert_eq!(first, second);
}

#[test]
fn context_interpolated() {
    let ts = store(vec![("greet", "Hi {{name}}!")]);
    let n = RenderNode::WithContext {
        template: "greet".to_string(),
        context: DataTree::Object(vec![(
            "name".to_string(),
            DataTree::Text("Ada".to_string()),
        )]),
    };
    assert_eq!(n.render(&ts).unwrap(), "Hi Ada!");
}

#[test]
fn composition_injects_content() {
    let ts = store(vec![("outer", "[{{content}}]"), ("inner", "world")]);
    let n = RenderNode::WithChild {
        template: "outer".to_string(),
        child: Box::new(leaf("inner")),
    };
    assert_eq!(n.render(&ts).unwrap(), "[world]");
}

#[test]
fn child_output_embedded_verbatim() {
    let ts = store(vec![("outer", "[{{content}}]"), ("inner", "<b>&amp;</b>")]);
    let n = RenderNode::WithChild {
        template: "outer".to_string(),
        child: Box::new(leaf("inner")),
    };
    assert_eq!(n.render(&ts).unwrap(), "[<b>&amp;</b>]");
}

#[test]
fn child_output_overrides_local_content() {
    let ts = store(vec![("outer", "[{{content}}]"), ("inner", "world")]);
    let n = RenderNode::Full {
        template: "outer".to_string(),
        context: DataTree::Object(vec![(
            "content".to_string(),
            DataTree::Text("local".to_string()),
        )]),
        child: Box::new(leaf("inner")),
    };
    assert_eq!(n.render(&ts).unwrap(), "[world]");
}

#[test]
fn missing_template_fails_closed() {
    let ts = store(vec![("present", "x")]);
    let r = leaf("missing").render(&ts);
    assert!(matches!(r, Err(RenderError::TemplateNotFound(ref name)) if name == "missing"));
}

#[test]
fn missing_template_in_child_propagates() {
    let ts = store(vec![("outer", "[{{content}}]")]);
    let n = RenderNode::WithChild {
        template: "outer".to_string(),
        child: Box::new(leaf("missing")),
    };
    let r = n.render(&ts);
    assert!(matches!(r, Err(RenderError::TemplateNotFound(ref name)) if name == "missing"));
}

#[test]
fn malformed_template_render_error() {
    let ts = store(vec![("bad", "{{#if}}")]);
    let r = leaf("bad").render(&ts);
    assert!(matches!(r, Err(RenderError::TemplateRenderError(ref name)) if name == "bad"));
}

#[test]
fn end_to_end_scenario() {
    let ts = store(vec![
        ("page", "<div>{{content}}</div>"),
        ("article", "<h1>{{title}}</h1><p>{{content}}</p>"),
    ]);
    let cs = store(vec![("hello", "---\ntitle: \"Hello\"\n---\nWorld")]);
    let n = RenderNode::WithChild {
        template: "page".to_string(),
        child: Box::new(leaf("article")),
    };
    let r = n.render_for_file(&ts, &cs, &"hello".to_string()).unwrap();
    assert_eq!(r, "<div><h1>Hello</h1><p><p>World</p>\n</p></div>");
}

#[test]
fn file_bound_local_context_wins_over_metadata() {
    let ts = store(vec![("article", "<h1>{{title}}</h1>")]);
    let cs = store(vec![("post", "---\ntitle: \"From metadata\"\n---\nBody")]);
    let n = RenderNode::WithContext {
        template: "article".to_string(),
        context: DataTree::Object(vec![(
            "title".to_string(),
            DataTree::Text("From local".to_string()),
        )]),
    };
    let r = n.render_for_file(&ts, &cs, &"post".to_string()).unwrap();
    assert_eq!(r, "<h1>From local</h1>");
}

#[test]
fn missing_content_file_fails() {
    let ts = store(vec![("article", "x")]);
    let cs = store(vec![]);
    let r = leaf("article").render_for_file(&ts, &cs, &"absent".to_string());
    assert!(matches!(r, Err(RenderError::ContentFileNotFound(ref s)) if s == "absent"));
}

#[test]
fn missing_front_matter_fails_decode() {
    let ts = store(vec![("article", "x")]);
    let cs = store(vec![("plain", "Just a body, no front matter.")]);
    let r = leaf("article").render_for_file(&ts, &cs, &"plain".to_string());
    assert!(matches!(r, Err(RenderError::MetadataDecodeError(ref s)) if s == "plain"));
}

#[test]
fn context_sections_and_iteration() {
    let ts = store(vec![(
        "mixed",
        "{{#if flag}}{{n}}{{/if}};{{#each items}}{{this}}.{{/each}}",
    )]);
    let n = RenderNode::WithContext {
        template: "mixed".to_string(),
        context: DataTree::Object(vec![
            ("flag".to_string(), DataTree::Bool(true)),
            ("n".to_string(), DataTree::Int(3)),
            (
                "items".to_string(),
                DataTree::List(vec![
                    DataTree::Text("a".to_string()),
                    DataTree::Text("b".to_string()),
                ]),
            ),
            ("nothing".to_string(), DataTree::Null),
        ]),
    };
    assert_eq!(n.render(&ts).unwrap(), "3;a.b.");
}

#[test]
fn file_bound_full_node_merges_all_layers() {
    let ts = store(vec![
        ("outer", "<t>{{title}}|{{extra}}|{{content}}</t>"),
        ("inner", "<i>{{title}}:{{content}}</i>"),
    ]);
    let cs = store(vec![("post", "---\ntitle: \"T\"\n---\nBody")]);
    let n = RenderNode::Full {
        template: "outer".to_string(),
        context: DataTree::Object(vec![(
            "extra".to_string(),
            DataTree::Text("E".to_string()),
        )]),
        child: Box::new(leaf("inner")),
    };
    let r = n.render_for_file(&ts, &cs, &"post".to_string()).unwrap();
    assert_eq!(r, "<t>T|E|<i>T:<p>Body</p>\n</i></t>");
}
