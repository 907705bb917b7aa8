//! Render nodes: the polymorphic unit of the composition tree. A node names
//! a template and optionally carries a local data context and a child node;
//! rendering resolves the template, renders the child first if there is
//! one, merges the child's output into the context under the reserved
//! `content` key, and evaluates the template against the result.

use vstd::prelude::*;
use vstd::string::StringExecFns;
use crate::data::{
    assoc_get, assoc_has, entries_view, lemma_assoc_push, lemma_assoc_set, merge_entries, merge_trees, merge_v,
    tree_view, DataTree, DataTreeV,
};
use crate::engine::{
    evaluate_template, front_matter_of, get_metadata, markdown_html_of, parse_markdown,
    template_output_of,
};
use crate::store::TextStore;

verus! {

/// A unit of the composition tree, one variant per combination of the
/// optional fields: a template name, an optional local context, and an
/// optional child whose rendered output is injected under `content`.
#[derive(Debug)]
pub enum RenderNode {
    Leaf { template: String },
    WithChild { template: String, child: Box<RenderNode> },
    WithContext { template: String, context: DataTree },
    Full { template: String, context: DataTree, child: Box<RenderNode> },
}

/// The mathematical model of a `RenderNode`.
pub enum RenderNodeV {
    Leaf { template: Seq<char> },
    WithChild { template: Seq<char>, child: Box<RenderNodeV> },
    WithContext { template: Seq<char>, context: DataTreeV },
    Full { template: Seq<char>, context: DataTreeV, child: Box<RenderNodeV> },
}

pub open spec fn node_view(n: RenderNode) -> RenderNodeV
    decreases n,
{
    match n {
        RenderNode::Leaf { template } => RenderNodeV::Leaf { template: template@ },
        RenderNode::WithChild { template, child } => RenderNodeV::WithChild {
            template: template@,
            child: Box::new(node_view(*child)),
        },
        RenderNode::WithContext { template, context } => RenderNodeV::WithContext {
            template: template@,
            context: context@,
        },
        RenderNode::Full { template, context, child } => RenderNodeV::Full {
            template: template@,
            context: context@,
            child: Box::new(node_view(*child)),
        },
    }
}

impl View for RenderNode {
    type V = RenderNodeV;

    open spec fn view(&self) -> RenderNodeV {
        node_view(*self)
    }
}

/// Why a render failed: the named template is absent from the template
/// store, the template did not evaluate, the named content file is absent
/// from the content store, or its front matter did not decode.
#[derive(Debug)]
pub enum RenderError {
    TemplateNotFound(String),
    TemplateRenderError(String),
    ContentFileNotFound(String),
    MetadataDecodeError(String),
}

/// The mathematical model of a `RenderError`.
pub enum RenderErrorV {
    TemplateNotFound(Seq<char>),
    TemplateRenderError(Seq<char>),
    ContentFileNotFound(Seq<char>),
    MetadataDecodeError(Seq<char>),
}

impl View for RenderError {
    type V = RenderErrorV;

    open spec fn view(&self) -> RenderErrorV {
        match self {
            RenderError::TemplateNotFound(s) => RenderErrorV::TemplateNotFound(s@),
            RenderError::TemplateRenderError(s) => RenderErrorV::TemplateRenderError(s@),
            RenderError::ContentFileNotFound(s) => RenderErrorV::ContentFileNotFound(s@),
            RenderError::MetadataDecodeError(s) => RenderErrorV::MetadataDecodeError(s@),
        }
    }
}

/// A render result as its model.
pub open spec fn render_result_view(r: Result<String, RenderError>) -> Result<
    Seq<char>,
    RenderErrorV,
> {
    match r {
        Ok(s) => Ok(s@),
        Err(e) => Err(e@),
    }
}

/// The template name a node references.
pub open spec fn node_template(n: RenderNodeV) -> Seq<char> {
    match n {
        RenderNodeV::Leaf { template } => template,
        RenderNodeV::WithChild { template, .. } => template,
        RenderNodeV::WithContext { template, .. } => template,
        RenderNodeV::Full { template, .. } => template,
    }
}

/// An empty mapping: the context of a node with no local context.
pub open spec fn empty_object() -> DataTreeV {
    DataTreeV::Object(Seq::empty())
}

/// The one-entry mapping `{ "content": html }`.
pub open spec fn content_entries(html: Seq<char>) -> Seq<(Seq<char>, DataTreeV)> {
    seq![("content"@, DataTreeV::Text(html))]
}

/// A context with rendered output merged in under the reserved `content`
/// key; by the merge rule the new output wins over any `content` the base
/// already held.
pub open spec fn with_content(base: DataTreeV, html: Seq<char>) -> DataTreeV {
    merge_v(base, DataTreeV::Object(content_entries(html)))
}

/// The result of evaluating template text against a context: the engine's
/// output, or a render error naming the template.
pub open spec fn eval_spec(tpl: Seq<char>, ctx: DataTreeV, name: Seq<char>) -> Result<
    Seq<char>,
    RenderErrorV,
> {
    match template_output_of(tpl, ctx) {
        Some(s) => Ok(s),
        None => Err(RenderErrorV::TemplateRenderError(name)),
    }
}

/// Standalone rendering: resolve the node's template in the template store,
/// render the child first if there is one, merge its output into the local
/// context (or an empty one) under `content`, and evaluate the template.
pub open spec fn render_spec(n: RenderNodeV, ts: Seq<(Seq<char>, Seq<char>)>) -> Result<
    Seq<char>,
    RenderErrorV,
>
    decreases n,
{
    let name = node_template(n);
    if !assoc_has(ts, name) {
        Err(RenderErrorV::TemplateNotFound(name))
    } else {
        let tpl = assoc_get(ts, name);
        match n {
            RenderNodeV::Leaf { .. } => eval_spec(tpl, empty_object(), name),
            RenderNodeV::WithContext { context, .. } => eval_spec(tpl, context, name),
            RenderNodeV::WithChild { child, .. } => match render_spec(*child, ts) {
                Err(e) => Err(e),
                Ok(h) => eval_spec(tpl, with_content(empty_object(), h), name),
            },
            RenderNodeV::Full { context, child, .. } => match render_spec(*child, ts) {
                Err(e) => Err(e),
                Ok(h) => eval_spec(tpl, with_content(context, h), name),
            },
        }
    }
}

/// File-bound rendering: as `render_spec`, but the context starts from the
/// front matter of the markdown file named by `stem` in the content store,
/// the local context is merged over it (local wins), and a node without a
/// child takes the markdown body as its `content`; a child is rendered
/// file-bound against the same stem, sharing the page's content and
/// metadata.
pub open spec fn render_for_file_spec(
    n: RenderNodeV,
    ts: Seq<(Seq<char>, Seq<char>)>,
    cs: Seq<(Seq<char>, Seq<char>)>,
    stem: Seq<char>,
) -> Result<Seq<char>, RenderErrorV>
    decreases n,
{
    let name = node_template(n);
    if !assoc_has(ts, name) {
        Err(RenderErrorV::TemplateNotFound(name))
    } else if !assoc_has(cs, stem) {
        Err(RenderErrorV::ContentFileNotFound(stem))
    } else {
        let tpl = assoc_get(ts, name);
        let md = assoc_get(cs, stem);
        match front_matter_of(md) {
            None => Err(RenderErrorV::MetadataDecodeError(stem)),
            Some(meta) => match n {
                RenderNodeV::Leaf { .. } => eval_spec(
                    tpl,
                    with_content(meta, markdown_html_of(md)),
                    name,
                ),
                RenderNodeV::WithContext { context, .. } => eval_spec(
                    tpl,
                    with_content(merge_v(meta, context), markdown_html_of(md)),
                    name,
                ),
                RenderNodeV::WithChild { child, .. } => match render_for_file_spec(
                    *child,
                    ts,
                    cs,
                    stem,
                ) {
                    Err(e) => Err(e),
                    Ok(h) => eval_spec(tpl, with_content(meta, h), name),
                },
                RenderNodeV::Full { context, child, .. } => match render_for_file_spec(
                    *child,
                    ts,
                    cs,
                    stem,
                ) {
                    Err(e) => Err(e),
                    Ok(h) => eval_spec(tpl, with_content(merge_v(meta, context), h), name),
                },
            },
        }
    }
}

/// A context with `html` merged in under `content`.
pub fn attach_content(base: &DataTree, html: String) -> (r: DataTree)
    ensures
        r@ == with_content(base@, html@),
{
    let ghost hv = html@;
    let mut entries: Vec<(String, DataTree)> = Vec::new();
    let pair = (String::from_str("content"), DataTree::Text(html));
    let ghost pv = pair;
    entries.push(pair);
    let overlay = DataTree::Object(entries);
    proof {
        let es = overlay->Object_0@;
        assert(es.len() == 1);
        assert(es.last() == pv);
        assert(es.last().0@ == "content"@);
        assert(tree_view(es.last().1) == DataTreeV::Text(hv));
        assert(es.drop_last().len() == 0);
        assert(entries_view(es.drop_last()).len() == 0);
        assert(entries_view(es.drop_last()) =~= Seq::<(Seq<char>, DataTreeV)>::empty());
        assert(entries_view(es) == entries_view(es.drop_last()).push(
            (es.last().0@, tree_view(es.last().1)),
        ));
        assert(entries_view(es) =~= content_entries(hv));
    }
    merge_trees(base, &overlay)
}

impl RenderNode {
    /// The template name this node references.
    pub fn template_name(&self) -> (r: &String)
        ensures
            r@ == node_template(self@),
    {
        match self {
            RenderNode::Leaf { template } => template,
            RenderNode::WithChild { template, .. } => template,
            RenderNode::WithContext { template, .. } => template,
            RenderNode::Full { template, .. } => template,
        }
    }

    /// Standalone rendering against a template store; see `render_spec`.
    pub fn render(&self, templates: &TextStore) -> (r: Result<String, RenderError>)
        ensures
            render_result_view(r) == render_spec(self@, templates@),
        decreases self,
    {
        let name = self.template_name();
        let tpl = match templates.get(name) {
            Some(t) => t,
            None => {
                return Err(RenderError::TemplateNotFound(name.clone()));
            },
        };
        let ctx: DataTree = match self {
            RenderNode::Leaf { .. } => DataTree::Object(Vec::new()),
            RenderNode::WithContext { context, .. } => context.duplicate(),
            RenderNode::WithChild { child, .. } => {
                proof {
                    assert(decreases_to!(*self => **child));
                }
                let h = match child.render(templates) {
                    Ok(h) => h,
                    Err(e) => {
                        return Err(e);
                    },
                };
                attach_content(&DataTree::Object(Vec::new()), h)
            },
            RenderNode::Full { context, child, .. } => {
                proof {
                    assert(decreases_to!(*self => **child));
                }
                let h = match child.render(templates) {
                    Ok(h) => h,
                    Err(e) => {
                        return Err(e);
                    },
                };
                attach_content(context, h)
            },
        };
        proof {
            assert(entries_view(Seq::<(String, DataTree)>::empty()) =~= Seq::<(
                Seq<char>,
                DataTreeV,
            )>::empty());
        }
        match evaluate_template(tpl.as_str(), &ctx) {
            Some(s) => Ok(s),
            None => Err(RenderError::TemplateRenderError(name.clone())),
        }
    }

    /// File-bound rendering against a template store, a content store and a
    /// file stem; see `render_for_file_spec`.
    pub fn render_for_file(
        &self,
        templates: &TextStore,
        contents: &TextStore,
        file_stem: &String,
    ) -> (r: Result<String, RenderError>)
        ensures
            render_result_view(r) == render_for_file_spec(
                self@,
                templates@,
                contents@,
                file_stem@,
            ),
        decreases self,
    {
        let name = self.template_name();
        let tpl = match templates.get(name) {
            Some(t) => t,
            None => {
                return Err(RenderError::TemplateNotFound(name.clone()));
            },
        };
        let md = match contents.get(file_stem) {
            Some(m) => m,
            None => {
                return Err(RenderError::ContentFileNotFound(file_stem.clone()));
            },
        };
        let meta = match get_metadata(md.as_str()) {
            Some(v) => v,
            None => {
                return Err(RenderError::MetadataDecodeError(file_stem.clone()));
            },
        };
        let ctx: DataTree = match self {
            RenderNode::Leaf { .. } => attach_content(&meta, parse_markdown(md.as_str())),
            RenderNode::WithContext { context, .. } => {
                let base = merge_trees(&meta, context);
                attach_content(&base, parse_markdown(md.as_str()))
            },
            RenderNode::WithChild { child, .. } => {
                proof {
                    assert(decreases_to!(*self => **child));
                }
                let h = match child.render_for_file(templates, contents, file_stem) {
                    Ok(h) => h,
                    Err(e) => {
                        return Err(e);
                    },
                };
                attach_content(&meta, h)
            },
            RenderNode::Full { context, child, .. } => {
                proof {
                    assert(decreases_to!(*self => **child));
                }
                let base = merge_trees(&meta, context);
                let h = match child.render_for_file(templates, contents, file_stem) {
                    Ok(h) => h,
                    Err(e) => {
                        return Err(e);
                    },
                };
                attach_content(&base, h)
            },
        };
        match evaluate_template(tpl.as_str(), &ctx) {
            Some(s) => Ok(s),
            None => Err(RenderError::TemplateRenderError(name.clone())),
        }
    }
}


/// Composition injects the content key: merging rendered output into any
/// base context yields a mapping whose `content` key holds exactly that
/// output, every other key of a mapping base keeping its value.
pub proof fn lemma_content_key(base: DataTreeV, html: Seq<char>)
    ensures
        with_content(base, html) is Object,
        assoc_has(with_content(base, html)->Object_0, "content"@),
        assoc_get(with_content(base, html)->Object_0, "content"@) == DataTreeV::Text(html),
        forall|k: Seq<char>|
            base is Object && k != "content"@ ==> (assoc_has(
                with_content(base, html)->Object_0,
                k,
            ) <==> assoc_has(base->Object_0, k)),
        forall|k: Seq<char>|
            base is Object && k != "content"@ && assoc_has(base->Object_0, k) ==> assoc_get(
                with_content(base, html)->Object_0,
                k,
            ) == assoc_get(base->Object_0, k),
{
    let ys = content_entries(html);
    assert(ys.drop_last().len() == 0);
    assert(ys.last() == ("content"@, DataTreeV::Text(html)));
    if base is Object {
        let xs = base->Object_0;
        assert(merge_entries(xs, ys.drop_last()) == xs);
        if assoc_has(xs, "content"@) {
            let m = merge_v(assoc_get(xs, "content"@), DataTreeV::Text(html));
            assert(m == DataTreeV::Text(html));
            lemma_assoc_set(xs, "content"@, m);
        } else {
            lemma_assoc_push(xs, "content"@, DataTreeV::Text(html));
        }
    } else {
        let es = with_content(base, html)->Object_0;
        assert(es == ys);
        assert(es[0].0 == "content"@);
    }
}

/// The child's rendered output precedes a local `content` entry: even when
/// the base context itself defines `content`, the merged context holds the
/// rendered output there.
pub proof fn lemma_content_overrides_local(base: DataTreeV, html: Seq<char>)
    requires
        base is Object,
        assoc_has(base->Object_0, "content"@),
    ensures
        assoc_get(with_content(base, html)->Object_0, "content"@) == DataTreeV::Text(html),
{
    lemma_content_key(base, html);
}

/// A missing template fails closed: when the template store lacks the
/// node's template name, rendering yields exactly `TemplateNotFound` for
/// that name.
pub proof fn lemma_missing_template(n: RenderNodeV, ts: Seq<(Seq<char>, Seq<char>)>)
    requires
        !assoc_has(ts, node_template(n)),
    ensures
        render_spec(n, ts) == Err::<Seq<char>, RenderErrorV>(
            RenderErrorV::TemplateNotFound(node_template(n)),
        ),
{
}

/// Rendering is deterministic: any two render results of the same node
/// against the same template store are equal; there is no hidden state.
pub proof fn lemma_render_deterministic(
    n: RenderNodeV,
    ts: Seq<(Seq<char>, Seq<char>)>,
    r1: Result<Seq<char>, RenderErrorV>,
    r2: Result<Seq<char>, RenderErrorV>,
)
    requires
        r1 == render_spec(n, ts),
        r2 == render_spec(n, ts),
    ensures
        r1 == r2,
{
}

} // verus!
