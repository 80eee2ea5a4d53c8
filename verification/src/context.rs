use vstd::prelude::*;

use crate::frontmatter::FrontMatter;
use crate::json::{chapter_json, chapter_json_of, clone_value, json_str_of, json_string};
use crate::templater::Chapter;

verus! {

/// The JSON object that a sequence of context entries stands for: entries are
/// inserted in order, so a later entry replaces an earlier one of the same key.
pub open spec fn ctx_model(entries: Seq<(String, serde_json::Value)>) -> Map<
    Seq<char>,
    serde_json::Value,
>
    decreases entries.len(),
{
    if entries.len() == 0 {
        Map::empty()
    } else {
        ctx_model(entries.drop_last()).insert(entries.last().0@, entries.last().1)
    }
}

/// The render context for one chapter: the book configuration under `book`,
/// the chapter's pre-strip snapshot under `chapter` (an object exposing
/// exactly `name`, `path` and `content` to template authors), the declared
/// template name under `template` when one was declared, and every extra
/// front-matter field merged flat at the top level, the extra fields last.
pub open spec fn spec_context(
    book: serde_json::Value,
    chapter_name: Seq<char>,
    chapter_path: Seq<char>,
    chapter_content: Seq<char>,
    template: Option<Seq<char>>,
    extra: Seq<(String, serde_json::Value)>,
) -> Map<Seq<char>, serde_json::Value> {
    let base = Map::empty().insert("book"@, book).insert(
        "chapter"@,
        chapter_json_of(chapter_name, chapter_path, chapter_content),
    );
    let named = match template {
        Some(t) => base.insert("template"@, json_str_of(t)),
        None => base,
    };
    named.union_prefer_right(ctx_model(extra))
}

/// The object of a sequence maps a key to the value of its last entry with
/// that key.
proof fn lemma_ctx_model_last(entries: Seq<(String, serde_json::Value)>, i: int)
    requires
        0 <= i < entries.len(),
        forall|j: int| i < j < entries.len() ==> entries[j].0@ != entries[i].0@,
    ensures
        ctx_model(entries).dom().contains(entries[i].0@),
        ctx_model(entries)[entries[i].0@] == entries[i].1,
    decreases entries.len(),
{
    if i == entries.len() - 1 {
    } else {
        assert(entries.drop_last()[i] == entries[i]);
        lemma_ctx_model_last(entries.drop_last(), i);
        assert(entries.last() == entries[entries.len() - 1]);
        assert(entries.last().0@ != entries[i].0@);
    }
}

/// Collision rule: an extra front-matter field whose name is literally one of
/// the fixed context names (`book`, `chapter`, `template`) — or any name at
/// all — ends up owning that name in the assembled context: the last extra
/// entry with a given key decides its value. The hypothesis that the entry at
/// `i` is the last with its key holds of itself for fields parsed out of a
/// front-matter block, whose mapping carries each key once.
pub proof fn lemma_extra_field_wins(
    book: serde_json::Value,
    chapter_name: Seq<char>,
    chapter_path: Seq<char>,
    chapter_content: Seq<char>,
    template: Option<Seq<char>>,
    extra: Seq<(String, serde_json::Value)>,
    i: int,
)
    requires
        0 <= i < extra.len(),
        forall|j: int| i < j < extra.len() ==> extra[j].0@ != extra[i].0@,
    ensures
        spec_context(
            book,
            chapter_name,
            chapter_path,
            chapter_content,
            template,
            extra,
        ).dom().contains(extra[i].0@),
        spec_context(book, chapter_name, chapter_path, chapter_content, template, extra)[extra[i].0@]
            == extra[i].1,
{
    lemma_ctx_model_last(extra, i);
}

/// The values available to a template for one render call: the book
/// configuration, the chapter as it stood before its block was stripped, and
/// the chapter's parsed front matter.
pub struct TemplateValues {
    pub book: serde_json::Value,
    pub chapter: Chapter,
    pub frontmatter: FrontMatter,
}

/// The view of the declared template name, if any.
pub open spec fn opt_name(t: Option<String>) -> Option<Seq<char>> {
    match t {
        Some(s) => Some(s@),
        None => None,
    }
}

impl TemplateValues {
    /// Assembles the render context: `book`, `chapter` and `template` first,
    /// then every extra front-matter field, in declaration order. No name is
    /// reserved: an extra field may collide with a fixed one, and then the
    /// extra field wins (see [`lemma_extra_field_wins`]).
    pub fn to_context(self) -> (ctx: Vec<(String, serde_json::Value)>)
        ensures
            ctx_model(ctx@) == spec_context(
                self.book,
                self.chapter.name@,
                self.chapter.path@,
                self.chapter.content@,
                opt_name(self.frontmatter.template),
                self.frontmatter.extra@,
            ),
    {
        let TemplateValues { book, chapter, frontmatter } = self;
        let FrontMatter { template, extra } = frontmatter;
        let chapter_value = chapter_json(&chapter.name, &chapter.path, &chapter.content);
        let mut ctx: Vec<(String, serde_json::Value)> = Vec::new();
        ctx.push(("book".to_owned(), book));
        let ghost first_entries: Seq<(String, serde_json::Value)> = ctx@;
        proof {
            assert(ctx_model(Seq::<(String, serde_json::Value)>::empty()) == Map::<
                Seq<char>,
                serde_json::Value,
            >::empty());
            assert(first_entries.drop_last() =~= Seq::<(String, serde_json::Value)>::empty());
            assert(ctx_model(first_entries) == Map::<Seq<char>, serde_json::Value>::empty().insert(
                "book"@,
                book,
            ));
        }
        ctx.push(("chapter".to_owned(), chapter_value));
        let ghost base_entries: Seq<(String, serde_json::Value)> = ctx@;
        proof {
            assert(base_entries.drop_last() =~= first_entries);
            assert(ctx_model(base_entries) == ctx_model(first_entries).insert(
                "chapter"@,
                chapter_json_of(chapter.name@, chapter.path@, chapter.content@),
            ));
        }
        match &template {
            Some(t) => {
                ctx.push(("template".to_owned(), json_string(t)));
            },
            None => {},
        }
        let ghost named_entries: Seq<(String, serde_json::Value)> = ctx@;
        proof {
            match template {
                Some(t) => {
                    assert(named_entries.drop_last() =~= base_entries);
                    assert(ctx_model(named_entries) == ctx_model(base_entries).insert(
                        "template"@,
                        json_str_of(t@),
                    ));
                },
                None => {},
            }
        }
        let mut rest = extra;
        proof {
            assert(extra@.take(0) =~= Seq::<(String, serde_json::Value)>::empty());
            assert(ctx_model(named_entries).union_prefer_right(ctx_model(extra@.take(0)))
                =~= ctx_model(named_entries));
            assert(extra@.skip(0) =~= extra@);
        }
        while rest.len() > 0
            invariant
                rest@.len() <= extra@.len(),
                ctx_model(ctx@) == ctx_model(named_entries).union_prefer_right(
                    ctx_model(extra@.take(extra@.len() - rest@.len())),
                ),
                extra@.skip(extra@.len() - rest@.len()) =~= rest@,
            decreases rest@.len(),
        {
            let ghost done: int = extra@.len() - rest@.len();
            let ghost prev_rest: Seq<(String, serde_json::Value)> = rest@;
            let entry = rest.remove(0);
            proof {
                assert(entry == prev_rest[0]);
                assert(extra@.skip(done)[0] == extra@[done]);
                assert(extra@[done] == entry);
                assert(extra@.take(done + 1) =~= extra@.take(done).push(entry));
                assert(extra@.take(done + 1).drop_last() =~= extra@.take(done));
                assert(extra@.skip(done + 1) =~= rest@);
            }
            let ghost prev_ctx: Seq<(String, serde_json::Value)> = ctx@;
            ctx.push(entry);
            proof {
                assert(ctx@.drop_last() =~= prev_ctx);
                assert(ctx@.last() == entry);
                assert(ctx_model(ctx@) == ctx_model(prev_ctx).insert(entry.0@, entry.1));
                assert(extra@.take(done + 1).last() == entry);
                assert(ctx_model(extra@.take(done + 1)) == ctx_model(extra@.take(done)).insert(
                    entry.0@,
                    entry.1,
                ));
                assert(ctx_model(named_entries).union_prefer_right(
                    ctx_model(extra@.take(done)),
                ).insert(entry.0@, entry.1) =~= ctx_model(named_entries).union_prefer_right(
                    ctx_model(extra@.take(done + 1)),
                ));
            }
        }
        proof {
            assert(extra@.take(extra@.len() - rest@.len()) =~= extra@);
            assert(ctx_model(ctx@) == ctx_model(named_entries).union_prefer_right(
                ctx_model(extra@),
            ));
        }
        ctx
    }
}

} // verus!
