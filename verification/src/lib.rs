//! Cast: component models, interaction rules and text utilities of a
//! themeable immediate-mode UI kit, with their contracts.
use vstd::prelude::*;

pub mod calendar;
pub mod components;
pub mod font;
pub mod foundation;
pub mod gallery;
pub mod markdown;
pub mod navigation;
pub mod text;

verus! {

} // verus!
