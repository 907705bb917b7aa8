//! The outside collaborators: markdown-to-HTML conversion, front-matter
//! extraction, and logic-less template evaluation. Each is deterministic in
//! its text inputs, so each result is named by an uninterpreted spec
//! function; everything the library proves about rendering is stated over
//! these names.

use vstd::prelude::*;
use crate::data::DataTreeV;

verus! {

/// serde_json's value type: the shape in which structured data is handed to
/// the template engine and received from the front-matter parser.
#[verifier::external_type_specification]
#[verifier::external_body]
pub struct ExJsonValue(serde_json::Value);

/// The HTML body that the markdown converter produces for a document.
pub uninterp spec fn markdown_html_of(md: Seq<char>) -> Seq<char>;

/// The front-matter data tree of a markdown document, if the document has a
/// well-formed front-matter block.
pub uninterp spec fn front_matter_of(md: Seq<char>) -> Option<DataTreeV>;

/// The output of evaluating a template against a data tree, if the template
/// is well-formed.
pub uninterp spec fn template_output_of(template: Seq<char>, ctx: DataTreeV) -> Option<Seq<char>>;

/// The conversion half of the template-engine collaborator: a library data
/// tree as a serde_json value, entry order kept first-wins. Called only by
/// `evaluate_template`.
#[verifier::external_body]
fn tree_to_json(v: &crate::data::DataTree) -> serde_json::Value {
    match v {
        crate::data::DataTree::Null => serde_json::Value::Null,
        crate::data::DataTree::Bool(b) => serde_json::Value::Bool(*b),
        crate::data::DataTree::Int(i) => serde_json::Value::Number(serde_json::Number::from(*i)),
        crate::data::DataTree::Text(s) => serde_json::Value::String(s.clone()),
        crate::data::DataTree::List(xs) => serde_json::Value::Array(
            xs.iter().map(tree_to_json).collect(),
        ),
        crate::data::DataTree::Object(es) => serde_json::Value::Object(
            es.iter().fold(serde_json::Map::new(), |mut m, (k, w)| {
                m.entry(k.clone()).or_insert(tree_to_json(w));
                m
            }),
        ),
    }
}

/// The conversion half of the front-matter collaborator: a serde_json value
/// as a library data tree. A number outside the `i64` range reads as null.
/// Called only by `get_metadata`.
#[verifier::external_body]
fn tree_from_json(j: &serde_json::Value) -> crate::data::DataTree {
    match j {
        serde_json::Value::Null => crate::data::DataTree::Null,
        serde_json::Value::Bool(b) => crate::data::DataTree::Bool(*b),
        serde_json::Value::Number(n) => n.as_i64().map_or(
            crate::data::DataTree::Null,
            crate::data::DataTree::Int,
        ),
        serde_json::Value::String(s) => crate::data::DataTree::Text(s.clone()),
        serde_json::Value::Array(xs) => crate::data::DataTree::List(
            xs.iter().map(tree_from_json).collect(),
        ),
        serde_json::Value::Object(m) => crate::data::DataTree::Object(
            m.iter().map(|(k, w)| (k.clone(), tree_from_json(w))).collect(),
        ),
    }
}

/// Relies on pulldown_cmark::Parser::new_ext and pulldown_cmark::html::push_html:
/// the HTML for a markdown document is a function of its text alone. A
/// leading YAML-style front-matter block is recognised and left out of the
/// body.
#[verifier::external_body]
pub fn parse_markdown(md: &str) -> (r: String)
    ensures
        r@ == markdown_html_of(md@),
{
    let opts = pulldown_cmark::Options::ENABLE_YAML_STYLE_METADATA_BLOCKS;
    let parser = pulldown_cmark::Parser::new_ext(md, opts);
    let mut html = String::new();
    pulldown_cmark::html::push_html(&mut html, parser);
    html
}

/// Relies on yaml_front_matter::YamlFrontMatter::parse: the front-matter
/// block of a markdown document is a function of its text alone. A document
/// whose front matter is absent (parsed as null) or malformed yields
/// `None`.
#[verifier::external_body]
pub fn get_metadata(md: &str) -> (r: Option<crate::data::DataTree>)
    ensures
        match r {
            Some(v) => front_matter_of(md@) == Some(v@),
            None => front_matter_of(md@) is None,
        },
{
    match yaml_front_matter::YamlFrontMatter::parse::<serde_json::Value>(md) {
        Ok(doc) => match doc.metadata {
            serde_json::Value::Null => None,
            meta => Some(tree_from_json(&meta)),
        },
        Err(_) => None,
    }
}

/// Relies on handlebars::Handlebars::render_template: evaluating a template
/// against fixed data is a function of the template text and the data
/// alone. Escaping is turned off, so interpolated values are embedded
/// verbatim; a malformed template yields `None`.
#[verifier::external_body]
pub(crate) fn evaluate_template(template: &str, ctx: &crate::data::DataTree) -> (r: Option<String>)
    ensures
        match r {
            Some(s) => template_output_of(template@, ctx@) == Some(s@),
            None => template_output_of(template@, ctx@) is None,
        },
{
    let mut engine = handlebars::Handlebars::new();
    engine.register_escape_fn(handlebars::no_escape);
    engine.render_template(template, &tree_to_json(ctx)).ok()
}

} // verus!
