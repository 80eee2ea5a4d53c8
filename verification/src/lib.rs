//! A verified chapter-templating library for book pipelines.
//!
//! Each chapter of a book may begin with a fenced front-matter block.
//! When a block is present it is stripped from the chapter, and when it
//! names a template the chapter's content is replaced by that template
//! rendered against a context assembled from the book configuration,
//! the chapter's pre-strip snapshot, and the block's remaining fields.

pub mod errors;
pub mod json;
pub mod frontmatter;
pub mod registry;
pub mod context;
pub mod templater;

pub use errors::TransformError;
pub use frontmatter::FrontMatter;
pub use context::TemplateValues;
pub use templater::{Chapter, Templater};
pub use registry::template_name_of;
