//! Font Awesome icon variants: how a variant is named, which asset backs it,
//! and which fill overrides follow from the colours configured for it.

pub mod catalog;
pub mod icon;
pub mod style;
pub mod text;
pub mod variant;
