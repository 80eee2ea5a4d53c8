use mdbook_handlebars::template_name_of;
use mdbook_handlebars::{Chapter, FrontMatter, Templater, TransformError};

fn book_value() -> serde_json::Value {
    let mut m = serde_json::Map::new();
    m.insert(
        "title".to_string(),
        serde_json::Value::String("My Book".to_string()),
    );
    serde_json::Value::Object(m)
}

fn make_templater(files: Vec<(&str, &str)>) -> (Templater, Vec<String>) {
    let owned: Vec<(String, String)> = files
        .into_iter()
        .map(|(n, c)| (n.to_string(), c.to_string()))
        .collect();
    Templater::new(book_value(), owned)
}

fn chapter(name: &str, path: &str, content: &str) -> Chapter {
    Chapter {
        name: name.to_string(),
        path: path.to_string(),
        content: content.to_string(),
    }
}

#[test]
fn renders_named_template_against_chapter_identity() {
    let (t, failures) = make_templater(vec![("greeting.hbs", "Hello {{chapter.name}}!")]);
    assert!(failures.is_empty());
    let mut ch = chapter(
        "intro",
        "intro.md",
        "---\ntemplate: greeting\n---\nignored body",
    );
    let r = t.template_chapter(&mut ch);
    assert!(r.is_ok());
    assert_eq!(ch.content, "Hello intro!");
    assert_eq!(ch.name, "intro");
    assert_eq!(ch.path, "intro.md");
}

#[test]
fn body_is_cut_at_the_next_fence() {
    // The front-matter splitter divides the text on every `---` and keeps
    // only the segment after the block as the body.
    let (t, _) = make_templater(vec![]);
    let mut ch = chapter("intro", "intro.md", "---\nauthor: a\n---\nbody\n---\nmore");
    let r = t.template_chapter(&mut ch);
    assert!(r.is_ok());
    assert_eq!(ch.content, "\nbody\n");
}

#[test]
fn chapter_without_block_is_untouched() {
    let (t, _) = make_templater(vec![("greeting.hbs", "Hello {{chapter.name}}!")]);
    let mut ch = chapter("intro", "intro.md", "plain text, no block");
    let r = t.template_chapter(&mut ch);
    assert!(r.is_ok());
    assert_eq!(ch.content, "plain text, no block");
}

#[test]
fn unknown_template_fails_and_leaves_chapter_stripped() {
    let (t, _) = make_templater(vec![("greeting.hbs", "Hello {{chapter.name}}!")]);
    let mut ch = chapter("intro", "intro.md", "---\ntemplate: missing\n---\nbody");
    let r = t.template_chapter(&mut ch);
    assert!(matches!(r, Err(TransformError::Render(_))));
    assert_eq!(ch.content, "\nbody");
}

#[test]
fn block_without_template_field_is_stripped_only() {
    let (t, _) = make_templater(vec![("greeting.hbs", "Hello {{chapter.name}}!")]);
    let mut ch = chapter("intro", "intro.md", "---\nauthor: someone\n---\nrest of it");
    let r = t.template_chapter(&mut ch);
    assert!(r.is_ok());
    assert_eq!(ch.content, "\nrest of it");
}

#[test]
fn null_template_field_is_stripped_only() {
    let (t, _) = make_templater(vec![("greeting.hbs", "Hello {{chapter.name}}!")]);
    let mut ch = chapter("intro", "intro.md", "---\ntemplate: null\n---\nrest");
    let r = t.template_chapter(&mut ch);
    assert!(r.is_ok());
    assert_eq!(ch.content, "\nrest");
}

#[test]
fn malformed_block_fails_and_leaves_chapter_untouched() {
    let (t, _) = make_templater(vec![("greeting.hbs", "Hello {{chapter.name}}!")]);
    let raw = "---\n- not\n- a mapping\n---\nbody";
    let mut ch = chapter("intro", "intro.md", raw);
    let r = t.template_chapter(&mut ch);
    assert!(matches!(r, Err(TransformError::Metadata(_))));
    assert_eq!(ch.content, raw);
}

#[test]
fn non_string_template_field_fails_before_stripping() {
    let (t, _) = make_templater(vec![("greeting.hbs", "Hello {{chapter.name}}!")]);
    let raw = "---\ntemplate: 5\n---\nbody";
    let mut ch = chapter("intro", "intro.md", raw);
    let r = t.template_chapter(&mut ch);
    assert!(matches!(r, Err(TransformError::Metadata(_))));
    assert_eq!(ch.content, raw);
}

#[test]
fn second_run_on_processed_chapter_is_noop() {
    let (t, _) = make_templater(vec![]);
    let mut ch = chapter("intro", "intro.md", "---\nauthor: someone\n---\nrest");
    assert!(t.template_chapter(&mut ch).is_ok());
    assert_eq!(ch.content, "\nrest");
    let again = t.template_chapter(&mut ch);
    assert!(again.is_ok());
    assert_eq!(ch.content, "\nrest");
}

#[test]
fn extra_field_named_book_wins_in_context() {
    let (t, failures) = make_templater(vec![("show.hbs", "B:{{book}} T:{{title}}")]);
    assert!(failures.is_empty());
    let mut ch = chapter(
        "intro",
        "intro.md",
        "---\ntemplate: show\nbook: override\ntitle: mine\n---\nbody",
    );
    let r = t.template_chapter(&mut ch);
    assert!(r.is_ok());
    assert_eq!(ch.content, "B:override T:mine");
}

#[test]
fn extra_field_named_chapter_wins_in_context() {
    let (t, _) = make_templater(vec![("show.hbs", "C:{{chapter}}")]);
    let mut ch = chapter(
        "intro",
        "intro.md",
        "---\ntemplate: show\nchapter: shadowed\n---\nbody",
    );
    let r = t.template_chapter(&mut ch);
    assert!(r.is_ok());
    assert_eq!(ch.content, "C:shadowed");
}

#[test]
fn context_sees_book_config_and_prestrip_content() {
    let (t, _) = make_templater(vec![(
        "show.hbs",
        "{{book.title}}|{{chapter.path}}|{{chapter.content}}",
    )]);
    let mut ch = chapter("intro", "one/two.md", "---\ntemplate: show\n---\nbody");
    let r = t.template_chapter(&mut ch);
    assert!(r.is_ok());
    assert_eq!(
        ch.content,
        "My Book|one/two.md|---\ntemplate: show\n---\nbody"
    );
}

#[test]
fn context_carries_the_template_name() {
    let (t, _) = make_templater(vec![("show.hbs", "T:{{template}}")]);
    let mut ch = chapter("intro", "intro.md", "---\ntemplate: show\n---\nbody");
    let r = t.template_chapter(&mut ch);
    assert!(r.is_ok());
    assert_eq!(ch.content, "T:show");
}

#[test]
fn last_template_file_with_same_name_wins() {
    let (t, failures) = make_templater(vec![("a.hbs", "first"), ("a.hbs", "second")]);
    assert!(failures.is_empty());
    let mut ch = chapter("intro", "intro.md", "---\ntemplate: a\n---\nbody");
    let r = t.template_chapter(&mut ch);
    assert!(r.is_ok());
    assert_eq!(ch.content, "second");
}

#[test]
fn bad_template_source_is_skipped_and_reported() {
    let (t, failures) = make_templater(vec![("bad.hbs", "{{#if}}"), ("good.hbs", "fine")]);
    assert_eq!(failures.len(), 1);
    let mut ch = chapter("intro", "intro.md", "---\ntemplate: good\n---\nbody");
    assert!(t.template_chapter(&mut ch).is_ok());
    assert_eq!(ch.content, "fine");
    let mut bad = chapter("intro", "intro.md", "---\ntemplate: bad\n---\nbody");
    assert!(matches!(
        t.template_chapter(&mut bad),
        Err(TransformError::Render(_))
    ));
}

#[test]
fn template_names_derive_from_file_stems() {
    assert_eq!(template_name_of("greeting.hbs"), Some("greeting".to_string()));
    assert_eq!(template_name_of("a.b.hbs"), Some("a.b".to_string()));
    assert_eq!(template_name_of(".hbs"), None);
    assert_eq!(template_name_of("notes.txt"), None);
    assert_eq!(template_name_of("hbs"), None);
    assert_eq!(template_name_of("x.HBS"), None);
}

#[test]
fn from_pairs_takes_first_template_entry() {
    let pairs = vec![
        (
            "template".to_string(),
            serde_json::Value::String("one".to_string()),
        ),
        (
            "template".to_string(),
            serde_json::Value::String("two".to_string()),
        ),
        ("other".to_string(), serde_json::Value::Bool(true)),
    ];
    let fm = FrontMatter::from_pairs(pairs).unwrap();
    assert_eq!(fm.template, Some("one".to_string()));
    assert_eq!(fm.extra.len(), 2);
    assert_eq!(fm.extra[0].0, "template");
    assert_eq!(fm.extra[1].0, "other");
}

#[test]
fn from_pairs_rejects_non_string_template() {
    let pairs = vec![(
        "template".to_string(),
        serde_json::Value::Number(serde_json::Number::from(7)),
    )];
    let r = FrontMatter::from_pairs(pairs);
    assert!(matches!(r, Err(TransformError::Metadata(_))));
}

#[test]
fn describe_returns_the_message() {
    let e = TransformError::Render("no such template".to_string());
    assert_eq!(e.describe(), "no such template");
}
