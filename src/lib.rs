//! Design-system widgets as plain, verified models: how a component's
//! configuration maps to CSS classes and markup, and how its local state
//! reacts to events. A host rendering framework turns these models into a
//! live document.
use vstd::prelude::*;

pub mod button;
pub mod classes;
pub mod page;

verus! {

} // verus!
