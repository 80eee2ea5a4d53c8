use vstd::prelude::*;

use crate::errors::TransformError;
use crate::json::{json_value_as_string, json_value_is_null, value_as_str, value_is_null};

verus! {

/// What splitting a chapter's raw text into a front-matter block and a body
/// can yield, at the specification level.
pub enum FrontParse {
    /// No block opens the text; the chapter is left untouched.
    Absent,
    /// A block opens the text but is not a well-formed mapping.
    Malformed,
    /// The block's fields, in a fixed key order, and the residual body.
    Found { fields: Seq<(String, serde_json::Value)>, body: Seq<char> },
}

/// What the front-matter splitter returns for a given text. The split and the
/// parse depend on the text alone.
pub uninterp spec fn fm_parse(s: Seq<char>) -> FrontParse;

/// The executable counterpart of [`FrontParse`].
pub enum BlockParse {
    Absent,
    Malformed(String),
    Found(Vec<(String, serde_json::Value)>, String),
}

/// Relies on `serde_frontmatter::deserialize` into a `serde_json::Map`: it
/// splits a leading `---`-fenced block off the text, reports the block absent
/// when the text does not carry one, an error when the block is not a
/// well-formed mapping, and otherwise yields the mapping's entries in the
/// map's own key order together with the residual body.
#[verifier::external_body]
pub(crate) fn parse_front(s: &String) -> (r: BlockParse)
    ensures
        (r is Absent) == (fm_parse(s@) is Absent),
        (r is Malformed) == (fm_parse(s@) is Malformed),
        r matches BlockParse::Found(fields, body) ==> fm_parse(s@) matches FrontParse::Found {
            fields: f,
            body: b,
        } && fields@ == f && body@ == b,
{
    match serde_frontmatter::deserialize::<serde_json::Map<String, serde_json::Value>>(s) {
        Ok((map, body)) => BlockParse::Found(map.into_iter().collect(), body),
        Err(serde_frontmatter::SerdeFMError::MissingFrontMatter) => BlockParse::Absent,
        Err(serde_frontmatter::SerdeFMError::YamlParseError(e)) => BlockParse::Malformed(
            format!("invalid front matter: {e}"),
        ),
    }
}

/// The metadata declared by a chapter's front-matter block: the optional name
/// of the template to apply, and every other declared field in order.
pub struct FrontMatter {
    pub template: Option<String>,
    pub extra: Vec<(String, serde_json::Value)>,
}

/// Reading the `template` directive out of the block's fields, at the
/// specification level: either the fields are rejected (the `template` key
/// holds neither a string nor null), or they split into the directive and the
/// remaining fields.
pub enum FmResult {
    Rejected,
    Fm { template: Option<Seq<char>>, extra: Seq<(String, serde_json::Value)> },
}

/// The first index holding the key `template`, if any.
pub open spec fn spec_find_template(fields: Seq<(String, serde_json::Value)>) -> Option<int>
    decreases fields.len(),
{
    if fields.len() == 0 {
        None
    } else if fields[0].0@ == "template"@ {
        Some(0int)
    } else {
        match spec_find_template(fields.drop_first()) {
            None => None,
            Some(i) => Some(i + 1),
        }
    }
}

/// How the block's fields are read: the first `template` entry decides the
/// directive (a string names the template, null declares none), and every
/// other entry is kept, in order, as an extra context field.
pub open spec fn spec_front(fields: Seq<(String, serde_json::Value)>) -> FmResult {
    match spec_find_template(fields) {
        None => FmResult::Fm { template: None, extra: fields },
        Some(i) => {
            let v = fields[i].1;
            if value_is_null(v) {
                FmResult::Fm { template: None, extra: fields.remove(i) }
            } else {
                match value_as_str(v) {
                    Some(t) => FmResult::Fm { template: Some(t), extra: fields.remove(i) },
                    None => FmResult::Rejected,
                }
            }
        },
    }
}

/// Finding the first `template` key agrees with scanning any prefix first.
proof fn lemma_find_skip(fields: Seq<(String, serde_json::Value)>, i: int)
    requires
        0 <= i <= fields.len(),
        forall|j: int| 0 <= j < i ==> fields[j].0@ != "template"@,
    ensures
        spec_find_template(fields) == match spec_find_template(fields.skip(i)) {
            None => None::<int>,
            Some(k) => Some(k + i),
        },
    decreases i,
{
    if i == 0 {
        assert(fields.skip(0) =~= fields);
    } else {
        assert(fields.len() > 0);
        assert(fields[0].0@ != "template"@);
        assert(fields.drop_first().skip(i - 1) =~= fields.skip(i));
        lemma_find_skip(fields.drop_first(), i - 1);
    }
}

/// The index of the first `template` entry among the fields, if any.
fn find_template(fields: &Vec<(String, serde_json::Value)>) -> (r: Option<usize>)
    ensures
        (r is Some) == (spec_find_template(fields@) is Some),
        r matches Some(k) ==> spec_find_template(fields@) == Some(k as int) && k < fields@.len()
            && fields@[k as int].0@ == "template"@,
{
    let key: String = "template".to_owned();
    let n = fields.len();
    let mut i: usize = 0;
    while i < n
        invariant
            0 <= i <= n,
            n == fields@.len(),
            key@ == "template"@,
            forall|j: int| 0 <= j < i ==> fields@[j].0@ != "template"@,
        decreases n - i,
    {
        if fields[i].0 == key {
            proof {
                lemma_find_skip(fields@, i as int);
                assert(fields@.skip(i as int)[0] == fields@[i as int]);
                assert(spec_find_template(fields@.skip(i as int)) == Some(0int));
            }
            return Some(i);
        }
        i = i + 1;
    }
    proof {
        lemma_find_skip(fields@, n as int);
        assert(fields@.skip(n as int).len() == 0);
    }
    None
}

impl FrontMatter {
    /// Reads the `template` directive out of the parsed block's fields and
    /// keeps every other field, per [`spec_front`]. The fields are rejected
    /// exactly when a `template` entry holds neither a string nor null.
    pub fn from_pairs(pairs: Vec<(String, serde_json::Value)>) -> (r: Result<
        FrontMatter,
        TransformError,
    >)
        ensures
            (r is Err) == (spec_front(pairs@) is Rejected),
            r matches Err(e) ==> e is Metadata,
            r matches Ok(fm) ==> spec_front(pairs@) matches FmResult::Fm { template, extra }
                && fm.extra@ == extra && (fm.template is Some) == (template is Some) && (
            fm.template matches Some(t) ==> template == Some(t@)),
    {
        let mut pairs = pairs;
        match find_template(&pairs) {
            None => Ok(FrontMatter { template: None, extra: pairs }),
            Some(i) => {
                if json_value_is_null(&pairs[i].1) {
                    let _ = pairs.remove(i);
                    Ok(FrontMatter { template: None, extra: pairs })
                } else {
                    match json_value_as_string(&pairs[i].1) {
                        Some(t) => {
                            let _ = pairs.remove(i);
                            Ok(FrontMatter { template: Some(t), extra: pairs })
                        },
                        None => Err(
                            TransformError::Metadata(
                                "front matter field \"template\" must be a string".to_owned(),
                            ),
                        ),
                    }
                }
            },
        }
    }
}

} // verus!
