//! Assembly of LaTeX documents from typed elements.
//!
//! Typed elements (parts, chapters, headers, text, packages, environments,
//! lists, ...) are converted into erased `Element`s that carry their rendered
//! text and a placement `Level`. An `ElementList` groups the elements by level
//! and renders the whole document, either as one string or with the packages
//! split off into a second string.
use vstd::prelude::*;

pub mod text;
pub mod level;
pub mod extra_ops;
pub mod ty;
pub mod element;
pub mod laws;
pub mod bundle;
pub mod template;

verus! {

} // verus!
