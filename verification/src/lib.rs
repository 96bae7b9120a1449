//! Constraint-resolution engine for describing EKS-style compute clusters.
//!
//! An operator describes a cluster through a short sequence of choices
//! (accelerator, CPU architecture, capacity reservation, scaling strategy,
//! add-ons). This library holds the static instance and add-on catalogs, the
//! per-field domain functions that say which choices remain legal given the
//! choices already made, and the derivation rules that fill in the fields the
//! operator never picks directly (AMI family candidates, admissible instance
//! types, the fallback node group, add-on identity bindings). Prompting and
//! template rendering live outside the library; it works purely on values.

pub mod add_on;
pub mod ami;
pub mod compute;
pub mod config;
pub mod error;
pub mod inputs;
pub mod instance;
pub mod version;

pub use inputs::Inputs;

use vstd::prelude::*;

verus! {

/// String equality by character content.
pub(crate) fn str_eq(a: &str, b: &str) -> (r: bool)
    ensures
        r == (a@ == b@),
{
    let x = a.to_owned();
    let y = b.to_owned();
    x == y
}

} // verus!
