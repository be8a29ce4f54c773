//! Wrapper types that associate a value with a location in a source text.
//!
//! - [`Spanned`] pairs a value with a byte range (its span).
//! - [`Sliced`] pairs a value with a byte range and a borrowed reference to
//!   the source text, so the spanned substring can be recovered on demand.
//!
//! The [`alias`] module builds the `type Spanned<Name> = ...` / `type
//! Sliced<Name> = ...` alias declarations that a derive front end emits for a
//! user-defined type.

use vstd::prelude::*;

pub mod alias;
mod sliced;
mod spanned;
mod text;

pub use sliced::Sliced;
pub use spanned::Spanned;

verus! {

/// A half-open range `[start, end)` of byte offsets into a source text.
pub type Span = core::ops::Range<usize>;

} // verus!
