//! The site generator's verified core: the three directory roots, the
//! output-path conventions, and the emission plans that say which output
//! file holds which rendered page. Reading directories and writing files is
//! left to the caller, who hands in the stores and carries out the plan.

use vstd::prelude::*;
use vstd::string::StringExecFns;
use crate::render::{render_for_file_spec, render_spec, RenderError, RenderErrorV, RenderNode};
use crate::store::TextStore;

verus! {

/// The three directory roots a site is generated from and into.
#[derive(Debug)]
pub struct MarkdownSiteGenerator {
    pub content: String,
    pub templates: String,
    pub output: String,
}

/// The mathematical model of the generator: its three roots.
pub struct MarkdownSiteGeneratorV {
    pub content: Seq<char>,
    pub templates: Seq<char>,
    pub output: Seq<char>,
}

impl View for MarkdownSiteGenerator {
    type V = MarkdownSiteGeneratorV;

    open spec fn view(&self) -> MarkdownSiteGeneratorV {
        MarkdownSiteGeneratorV {
            content: self.content@,
            templates: self.templates@,
            output: self.output@,
        }
    }
}

impl Default for MarkdownSiteGenerator {
    /// The conventional roots: `./content`, `./templates`, `./public`.
    fn default() -> (r: Self)
        ensures
            r@.content == "./content"@,
            r@.templates == "./templates"@,
            r@.output == "./public"@,
    {
        MarkdownSiteGenerator {
            content: String::from_str("./content"),
            templates: String::from_str("./templates"),
            output: String::from_str("./public"),
        }
    }
}

/// `dir/name` followed by an extension.
pub open spec fn file_under(dir: Seq<char>, name: Seq<char>, ext: Seq<char>) -> Seq<char> {
    dir + "/"@ + name + ext
}

impl MarkdownSiteGenerator {
    /// A generator with each root either overridden or at its conventional
    /// default.
    pub fn with_dirs(
        content: Option<&str>,
        templates: Option<&str>,
        output: Option<&str>,
    ) -> (r: Self)
        ensures
            r@.content == match content {
                Some(c) => c@,
                None => "./content"@,
            },
            r@.templates == match templates {
                Some(t) => t@,
                None => "./templates"@,
            },
            r@.output == match output {
                Some(o) => o@,
                None => "./public"@,
            },
    {
        let d = MarkdownSiteGenerator::default();
        let content = match content {
            Some(c) => String::from_str(c),
            None => d.content,
        };
        let templates = match templates {
            Some(t) => String::from_str(t),
            None => d.templates,
        };
        let output = match output {
            Some(o) => String::from_str(o),
            None => d.output,
        };
        MarkdownSiteGenerator { content, templates, output }
    }

    /// Where a template resource is looked up: `<templates>/<name>.html`.
    pub fn template_file_path(&self, name: &String) -> (r: String)
        ensures
            r@ == file_under(self@.templates, name@, ".html"@),
    {
        let mut p = self.templates.clone();
        p.append("/");
        p.append(name.as_str());
        p.append(".html");
        p
    }

    /// Where a content file is looked up: `<content>/<stem>.md`.
    pub fn content_file_path(&self, stem: &String) -> (r: String)
        ensures
            r@ == file_under(self@.content, stem@, ".md"@),
    {
        let mut p = self.content.clone();
        p.append("/");
        p.append(stem.as_str());
        p.append(".md");
        p
    }

    /// Where a standalone page is written: `<output>/<name>.html`.
    pub fn output_file_path(&self, name: &String) -> (r: String)
        ensures
            r@ == file_under(self@.output, name@, ".html"@),
    {
        let mut p = self.output.clone();
        p.append("/");
        p.append(name.as_str());
        p.append(".html");
        p
    }

    /// Where a folder-driven page is written:
    /// `<output>/<folder>/<stem>.html`, mirroring the markdown file's stem.
    pub fn output_folder_file_path(&self, folder: &String, stem: &String) -> (r: String)
        ensures
            r@ == file_under(self@.output + "/"@ + folder@, stem@, ".html"@),
    {
        let mut p = self.output.clone();
        p.append("/");
        p.append(folder.as_str());
        p.append("/");
        p.append(stem.as_str());
        p.append(".html");
        p
    }

    /// The emission plan for one standalone page: the output path and the
    /// rendered text; on a render failure nothing is planned and the error
    /// is handed back.
    pub fn emit_file_plan(
        &self,
        file_name: &String,
        node: &RenderNode,
        templates: &TextStore,
    ) -> (r: Result<(String, String), RenderError>)
        ensures
            match r {
                Ok(p) => render_spec(node@, templates@) == Ok::<Seq<char>, RenderErrorV>(p.1@)
                    && p.0@ == file_under(self@.output, file_name@, ".html"@),
                Err(e) => render_spec(node@, templates@) == Err::<Seq<char>, RenderErrorV>(e@),
            },
    {
        match node.render(templates) {
            Ok(html) => Ok((self.output_file_path(file_name), html)),
            Err(e) => Err(e),
        }
    }

    /// The emission plan for a content folder: one output file per stem,
    /// `<output>/<folder>/<stem>.html` holding that stem's file-bound
    /// render, in the order the stems were handed in; on the first failing
    /// stem nothing is planned and that stem's error is handed back.
    #[verifier::loop_isolation(false)]
    pub fn emit_folder_plan(
        &self,
        folder_name: &String,
        stems: &Vec<String>,
        node: &RenderNode,
        templates: &TextStore,
        contents: &TextStore,
    ) -> (r: Result<Vec<(String, String)>, RenderError>)
        ensures
            match r {
                Ok(plan) => plan@.len() == stems@.len() && forall|i: int|
                    0 <= i < stems@.len() ==> plan@[i].0@ == file_under(
                        self@.output + "/"@ + folder_name@,
                        stems@[i]@,
                        ".html"@,
                    ) && render_for_file_spec(node@, templates@, contents@, stems@[i]@)
                        == Ok::<Seq<char>, RenderErrorV>(plan@[i].1@),
                Err(e) => exists|i: int|
                    0 <= i < stems@.len() && render_for_file_spec(
                        node@,
                        templates@,
                        contents@,
                        stems@[i]@,
                    ) == Err::<Seq<char>, RenderErrorV>(e@) && forall|l: int|
                        0 <= l < i ==> render_for_file_spec(
                            node@,
                            templates@,
                            contents@,
                            stems@[l]@,
                        ) is Ok,
            },
    {
        let mut plan: Vec<(String, String)> = Vec::new();
        let mut i: usize = 0;
        while i < stems.len()
            invariant
                i <= stems@.len(),
                plan@.len() == i,
                forall|l: int|
                    0 <= l < i ==> plan@[l].0@ == file_under(
                        self@.output + "/"@ + folder_name@,
                        stems@[l]@,
                        ".html"@,
                    ) && render_for_file_spec(node@, templates@, contents@, stems@[l]@)
                        == Ok::<Seq<char>, RenderErrorV>(plan@[l].1@),
            decreases stems@.len() - i,
        {
            let html = match node.render_for_file(templates, contents, &stems[i]) {
                Ok(h) => h,
                Err(e) => {
                    proof {
                        assert(render_for_file_spec(node@, templates@, contents@, stems@[i as int]@)
                            == Err::<Seq<char>, RenderErrorV>(e@));
                    }
                    return Err(e);
                },
            };
            let path = self.output_folder_file_path(folder_name, &stems[i]);
            plan.push((path, html));
            i += 1;
        }
        Ok(plan)
    }
}

} // verus!
