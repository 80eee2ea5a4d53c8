use vstd::prelude::*;

use crate::context::{TemplateValues, spec_context};
use crate::errors::TransformError;
use crate::frontmatter::{
    BlockParse, FmResult, FrontMatter, FrontParse, fm_parse, parse_front, spec_front,
};
use crate::json::clone_value;
use crate::registry::{
    hb_new, hb_register, hb_render, registered, registry_of, rejected_count, render_of,
    template_name_of, template_stem,
};
use vstd::string::StringExecFns;

verus! {

/// One document node of the book tree, as this library sees it: its identity
/// (name and path) and its content text. The transform reads the identity and
/// rewrites the content; it never touches the identity.
pub struct Chapter {
    pub name: String,
    pub path: String,
    pub content: String,
}

/// The per-run transformer: the template registry, built once from the
/// configured template folder, and the book-wide configuration, both
/// read-only for the rest of the run.
pub struct Templater {
    pub handlebars: handlebars::Handlebars<'static>,
    pub book_config: serde_json::Value,
}

/// The content a transform leaves behind when no template is rendered: the
/// residual body when a block with an accepted `template` field was present
/// (stripping is unconditional once a block is read), the content untouched
/// otherwise.
pub open spec fn stripped_content(c: Seq<char>) -> Seq<char> {
    match fm_parse(c) {
        FrontParse::Found { fields, body } => if spec_front(fields) is Rejected {
            c
        } else {
            body
        },
        _ => c,
    }
}

/// Whether the chapter's text declares a template to render: a well-formed
/// block is present and its `template` field holds a string.
pub open spec fn declares_template(c: Seq<char>) -> bool {
    match fm_parse(c) {
        FrontParse::Found { fields, .. } => match spec_front(fields) {
            FmResult::Fm { template, .. } => template is Some,
            _ => false,
        },
        _ => false,
    }
}

/// Idempotence: a chapter that has already been processed — its block
/// stripped, nothing rendered — is left alone by a further transform,
/// provided the residual body does not itself open a front-matter block.
/// By [`Templater::template_chapter`]'s contract, a run that renders nothing
/// leaves `stripped_content` of the old text behind; this law says a second
/// such run then changes nothing.
pub proof fn lemma_strip_idempotent(c: Seq<char>)
    requires
        fm_parse(stripped_content(c)) is Absent,
    ensures
        stripped_content(stripped_content(c)) == stripped_content(c),
{
}

impl Templater {
    /// Builds the transformer for one run. Each file is given as its name and
    /// its source text; each one that [`template_stem`] accepts and the
    /// engine compiles is registered under its stem, in order, so the
    /// registry is exactly [`registry_of`] the files. A template the engine
    /// rejects is skipped and reported in the returned diagnostics — one
    /// entry per rejected file — and every other one still loads; building
    /// the registry never fails over one bad file.
    pub fn new(book_config: serde_json::Value, files: Vec<(String, String)>) -> (r: (
        Templater,
        Vec<String>,
    ))
        ensures
            r.0.book_config == book_config,
            registered(r.0.handlebars) == registry_of(files@),
            r.1@.len() == rejected_count(files@),
    {
        let mut handlebars = hb_new();
        let mut failures: Vec<String> = Vec::new();
        let n = files.len();
        let mut i: usize = 0;
        proof {
            assert(files@.take(0) =~= Seq::<(String, String)>::empty());
            assert(registered(handlebars) =~= Map::<Seq<char>, Seq<char>>::empty());
        }
        while i < n
            invariant
                0 <= i <= n,
                n == files@.len(),
                registered(handlebars) == registry_of(files@.take(i as int)),
                failures@.len() == rejected_count(files@.take(i as int)),
            decreases n - i,
        {
            proof {
                assert(files@.take(i + 1).drop_last() =~= files@.take(i as int));
                assert(files@.take(i + 1).last() == files@[i as int]);
            }
            match template_name_of(files[i].0.as_str()) {
                Some(name) => {
                    match hb_register(&mut handlebars, &name, &files[i].1) {
                        Ok(_) => {},
                        Err(e) => {
                            let msg = "failed to register template ".to_owned().concat(
                                name.as_str(),
                            ).concat(": ").concat(e.as_str());
                            failures.push(msg);
                        },
                    }
                },
                None => {},
            }
            i = i + 1;
        }
        proof {
            assert(files@.take(n as int) =~= files@);
        }
        (Templater { handlebars, book_config }, failures)
    }

    /// Renders one chapter whose block has been read: when the front matter
    /// declares no template, the chapter just keeps the residual body; when
    /// it declares one, the context is assembled from the pre-strip chapter,
    /// and the chapter's content becomes the rendered text — or, if the name
    /// is unknown or the engine fails, the chapter keeps the residual body
    /// and the failure is returned.
    fn template(&self, chapter: &mut Chapter, frontmatter: FrontMatter, body: String) -> (r: Result<
        (),
        TransformError,
    >)
        ensures
            final(chapter).name == old(chapter).name,
            final(chapter).path == old(chapter).path,
            r matches Err(e) ==> e is Render,
            frontmatter.template is None ==> r is Ok && final(chapter).content@ == body@,
            frontmatter.template matches Some(t) ==> {
                let outcome = render_of(
                    registered(self.handlebars),
                    t@,
                    spec_context(
                        self.book_config,
                        old(chapter).name@,
                        old(chapter).path@,
                        old(chapter).content@,
                        Some(t@),
                        frontmatter.extra@,
                    ),
                );
                &&& !registered(self.handlebars).dom().contains(t@) ==> r is Err
                &&& (r is Ok) == (outcome is Some)
                &&& r is Ok ==> outcome == Some(final(chapter).content@)
                &&& r is Err ==> final(chapter).content@ == body@
            },
    {
        let declared = match &frontmatter.template {
            Some(t) => Some(t.clone()),
            None => None,
        };
        match declared {
            None => {
                chapter.content = body;
                Ok(())
            },
            Some(name) => {
                let snapshot = Chapter {
                    name: chapter.name.clone(),
                    path: chapter.path.clone(),
                    content: chapter.content.clone(),
                };
                let values = TemplateValues {
                    book: clone_value(&self.book_config),
                    chapter: snapshot,
                    frontmatter,
                };
                let entries = values.to_context();
                chapter.content = body;
                match hb_render(&self.handlebars, &name, &entries) {
                    Ok(rendered) => {
                        chapter.content = rendered;
                        Ok(())
                    },
                    Err(m) => Err(TransformError::Render(m)),
                }
            },
        }
    }

    /// Transforms one chapter, per the run's registry and book configuration.
    /// A chapter with no front-matter block is left untouched; a malformed
    /// block fails the chapter, untouched; a well-formed block is stripped,
    /// and its `template` field, when present, selects the template whose
    /// rendering replaces the content. The outcome is one success or one
    /// error per chapter, never a partial write beyond the documented strip.
    pub fn template_chapter(&self, chapter: &mut Chapter) -> (r: Result<(), TransformError>)
        ensures
            final(chapter).name == old(chapter).name,
            final(chapter).path == old(chapter).path,
            !(r is Ok && declares_template(old(chapter).content@)) ==> final(chapter).content@
                == stripped_content(old(chapter).content@),
            fm_parse(old(chapter).content@) is Absent ==> r is Ok && final(chapter).content@
                == old(chapter).content@,
            fm_parse(old(chapter).content@) is Malformed ==> (r matches Err(e) && e is Metadata)
                && final(chapter).content@ == old(chapter).content@,
            fm_parse(old(chapter).content@) matches FrontParse::Found { fields, body } ==> match spec_front(
                fields,
            ) {
                FmResult::Rejected => (r matches Err(e) && e is Metadata)
                    && final(chapter).content@ == old(chapter).content@,
                FmResult::Fm { template, extra } => {
                    &&& template is None ==> r is Ok && final(chapter).content@ == body
                    &&& template matches Some(t) ==> {
                        let outcome = render_of(
                            registered(self.handlebars),
                            t,
                            spec_context(
                                self.book_config,
                                old(chapter).name@,
                                old(chapter).path@,
                                old(chapter).content@,
                                Some(t),
                                extra,
                            ),
                        );
                        &&& !registered(self.handlebars).dom().contains(t) ==> r is Err
                        &&& (r is Ok) == (outcome is Some)
                        &&& r is Ok ==> outcome == Some(final(chapter).content@)
                        &&& r is Err ==> (r matches Err(e) && e is Render)
                            && final(chapter).content@ == body
                    }
                },
            },
    {
        match parse_front(&chapter.content) {
            BlockParse::Absent => Ok(()),
            BlockParse::Malformed(m) => Err(TransformError::Metadata(m)),
            BlockParse::Found(fields, body) => {
                match FrontMatter::from_pairs(fields) {
                    Ok(fm) => self.template(chapter, fm, body),
                    Err(e) => Err(e),
                }
            },
        }
    }
}

} // verus!
