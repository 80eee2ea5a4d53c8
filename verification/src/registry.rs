use vstd::prelude::*;

use crate::context::ctx_model;
use vstd::string::StrSliceExecFns;

verus! {

/// Declares the engine's registry type so that it can stand in fields.
/// A value of it is built by [`hb_new`] and changed only by [`hb_register`],
/// so its template store is tracked exactly by [`registered`].
#[verifier::external_type_specification]
#[verifier::external_body]
pub struct ExHandlebars<'reg>(handlebars::Handlebars<'reg>);

/// The templates a registry holds: each registered name mapped to the source
/// text it was registered with.
pub uninterp spec fn registered(h: handlebars::Handlebars<'static>) -> Map<Seq<char>, Seq<char>>;

/// Whether the engine accepts a template source: compiling it depends on the
/// source text alone.
pub uninterp spec fn compiles(source: Seq<char>) -> bool;

/// What the engine produces for one render call: the rendered text, or `None`
/// when expansion itself fails; a function of the registered templates, the
/// chosen name, and the context object.
pub uninterp spec fn render_of(
    reg: Map<Seq<char>, Seq<char>>,
    name: Seq<char>,
    ctx: Map<Seq<char>, serde_json::Value>,
) -> Option<Seq<char>>;

/// Relies on `handlebars::Handlebars::new`: a fresh registry holds no
/// templates, and its dev mode stays off, so a render call looks a name up
/// in the stored templates alone.
#[verifier::external_body]
pub(crate) fn hb_new() -> (h: handlebars::Handlebars<'static>)
    ensures
        registered(h).dom() =~= Set::empty(),
{
    handlebars::Handlebars::new()
}

/// Relies on `handlebars::Handlebars::register_template_string`: whether the
/// source compiles depends on the source text alone (the registered name only
/// decorates its error). On success the template is stored under the name,
/// replacing any previous holder of that name; on a syntax error nothing is
/// stored.
#[verifier::external_body]
pub(crate) fn hb_register(
    h: &mut handlebars::Handlebars<'static>,
    name: &String,
    source: &String,
) -> (r: Result<(), String>)
    ensures
        (r is Ok) == compiles(source@),
        r is Ok ==> registered(*final(h)) == registered(*old(h)).insert(name@, source@),
        r is Err ==> registered(*final(h)) == registered(*old(h)),
{
    match h.register_template_string(name, source) {
        Ok(()) => Ok(()),
        Err(e) => Err(format!("{e}")),
    }
}

/// Relies on `handlebars::Handlebars::render`: the named template is rendered
/// against the JSON object built from the entries in order (a later entry
/// replaces an earlier one of the same key, as [`ctx_model`] says). A name
/// that is not registered fails to render; otherwise, with dev mode off and
/// the built-in helpers fixed, both the outcome and the rendered text are
/// functions of the registered sources, the name and the object. The engine
/// guards only a partial's direct self-inclusion: templates whose partials
/// recurse mutually need not return, which the resource model leaves out of
/// scope.
#[verifier::external_body]
pub(crate) fn hb_render(
    h: &handlebars::Handlebars<'static>,
    name: &String,
    entries: &Vec<(String, serde_json::Value)>,
) -> (r: Result<String, String>)
    ensures
        !registered(*h).dom().contains(name@) ==> r is Err,
        (r is Ok) == (render_of(registered(*h), name@, ctx_model(entries@)) is Some),
        r matches Ok(s) ==> render_of(registered(*h), name@, ctx_model(entries@)) == Some(s@),
{
    let mut data = serde_json::Map::new();
    for (k, v) in entries.iter() {
        data.insert(k.clone(), v.clone());
    }
    match h.render(name, &data) {
        Ok(s) => Ok(s),
        Err(e) => Err(format!("{e}")),
    }
}

/// Whether `i` is the position of a file name's extension dot: a dot not in
/// first position, with no dot after it.
pub open spec fn is_ext_dot(s: Seq<char>, i: int) -> bool {
    &&& 1 <= i < s.len()
    &&& s[i] == '.'
    &&& forall|j: int| i < j < s.len() ==> s[j] != '.'
}

/// The registered name a template file contributes: its base name with the
/// `hbs` extension stripped; `None` when the file does not carry that
/// extension (in particular for a name whose only dot leads it).
pub open spec fn template_stem(s: Seq<char>) -> Option<Seq<char>> {
    if exists|i: int| is_ext_dot(s, i) {
        let i = choose|i: int| is_ext_dot(s, i);
        if s.subrange(i + 1, s.len() as int) == "hbs"@ {
            Some(s.subrange(0, i))
        } else {
            None
        }
    } else {
        None
    }
}

/// A file name's extension dot is unique.
pub proof fn lemma_ext_dot_unique(s: Seq<char>, i: int, j: int)
    requires
        is_ext_dot(s, i),
        is_ext_dot(s, j),
    ensures
        i == j,
{
    if i < j {
        assert(s[j] != '.');
    } else if j < i {
        assert(s[i] != '.');
    }
}

/// The name under which a template file registers: the file's base name with
/// the recognized extension stripped, or `None` when the file is not a
/// template, per [`template_stem`].
pub fn template_name_of(file_name: &str) -> (r: Option<String>)
    ensures
        (r is Some) == (template_stem(file_name@) is Some),
        r matches Some(t) ==> template_stem(file_name@) == Some(t@),
{
    let n = file_name.unicode_len();
    let mut j: usize = 1;
    let mut dot: Option<usize> = None;
    if n < 2 {
        proof {
            assert(forall|i: int| !is_ext_dot(file_name@, i));
        }
        return None;
    }
    while j < n
        invariant
            1 <= j <= n,
            n == file_name@.len(),
            dot matches Some(d) ==> 1 <= d < j && file_name@[d as int] == '.' && (forall|k: int|
                d < k < j ==> file_name@[k] != '.'),
            dot is None ==> forall|k: int| 1 <= k < j ==> file_name@[k] != '.',
        decreases n - j,
    {
        if file_name.get_char(j) == '.' {
            dot = Some(j);
        }
        j = j + 1;
    }
    match dot {
        None => {
            proof {
                assert(forall|i: int| !is_ext_dot(file_name@, i));
            }
            None
        },
        Some(d) => {
            proof {
                assert(is_ext_dot(file_name@, d as int));
                let c = choose|i: int| is_ext_dot(file_name@, i);
                lemma_ext_dot_unique(file_name@, c, d as int);
                reveal_strlit("hbs");
            }
            if n - d == 4 && file_name.get_char(d + 1) == 'h' && file_name.get_char(d + 2) == 'b'
                && file_name.get_char(d + 3) == 's' {
                proof {
                    assert(file_name@.subrange(d + 1, n as int) =~= "hbs"@);
                }
                let stem = file_name.substring_char(0, d).to_owned();
                Some(stem)
            } else {
                proof {
                    let ext = file_name@.subrange(d + 1, n as int);
                    if ext == "hbs"@ {
                        assert(ext.len() == 3);
                        assert(n - d == 4);
                        assert(ext[0] == 'h' && ext[1] == 'b' && ext[2] == 's');
                        assert(ext[0] == file_name@[d + 1]);
                        assert(ext[1] == file_name@[d + 2]);
                        assert(ext[2] == file_name@[d + 3]);
                        assert(false);
                    }
                }
                None
            }
        },
    }
}

/// The registry a run builds from its template files: each template file
/// whose source the engine accepts is stored under its stem, in scan order,
/// so among files sharing a stem the last accepted one wins.
pub open spec fn registry_of(files: Seq<(String, String)>) -> Map<Seq<char>, Seq<char>>
    decreases files.len(),
{
    if files.len() == 0 {
        Map::empty()
    } else {
        let prev = registry_of(files.drop_last());
        match template_stem(files.last().0@) {
            Some(name) => if compiles(files.last().1@) {
                prev.insert(name, files.last().1@)
            } else {
                prev
            },
            None => prev,
        }
    }
}

/// How many template files a run turns away: those whose stem is accepted
/// but whose source the engine rejects.
pub open spec fn rejected_count(files: Seq<(String, String)>) -> int
    decreases files.len(),
{
    if files.len() == 0 {
        0
    } else {
        rejected_count(files.drop_last()) + if template_stem(files.last().0@) is Some
            && !compiles(files.last().1@) {
            1int
        } else {
            0int
        }
    }
}

/// Template name collision: when several files normalize to the same
/// registered name, the last one scanned whose source the engine accepts
/// wins. The file at `j` is that one, and the built registry maps `name`
/// to its source.
pub proof fn lemma_last_file_wins(files: Seq<(String, String)>, j: int, name: Seq<char>)
    requires
        0 <= j < files.len(),
        template_stem(files[j].0@) == Some(name),
        compiles(files[j].1@),
        forall|k: int|
            j < k < files.len() && template_stem(files[k].0@) == Some(name) ==> !compiles(
                files[k].1@,
            ),
    ensures
        registry_of(files).dom().contains(name),
        registry_of(files)[name] == files[j].1@,
    decreases files.len(),
{
    if j == files.len() - 1 {
        assert(files.last() == files[j]);
    } else {
        assert(files.drop_last()[j] == files[j]);
        lemma_last_file_wins(files.drop_last(), j, name);
        assert(files.last() == files[files.len() - 1]);
        if template_stem(files.last().0@) == Some(name) {
            assert(!compiles(files.last().1@));
        }
    }
}

} // verus!
