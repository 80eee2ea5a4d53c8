use vstd::prelude::*;

verus! {

/// A per-chapter failure. Either the leading front-matter block could not be
/// read as a mapping with an optional string `template` field, or rendering
/// the chosen template failed (unknown name or an engine failure).
#[derive(Debug)]
pub enum TransformError {
    /// A front-matter block is present but malformed.
    Metadata(String),
    /// The named template could not be rendered.
    Render(String),
}

impl TransformError {
    /// A diagnostic line for the operator; the chapter itself is not touched
    /// by whoever reports it.
    pub fn describe(&self) -> (r: String)
        ensures
            self matches TransformError::Metadata(m) ==> r@ == m@,
            self matches TransformError::Render(m) ==> r@ == m@,
    {
        match self {
            TransformError::Metadata(m) => m.clone(),
            TransformError::Render(m) => m.clone(),
        }
    }
}

} // verus!
