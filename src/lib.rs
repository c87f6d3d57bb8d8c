//! Feature composition for scaffolding new projects: a closed registry of
//! selectable compile features, the context that collects what each selected
//! feature contributes, configuration templates resolved against the active
//! features, and the argument lists handed to the build tool.
use vstd::prelude::*;

pub mod args;
pub mod context;
pub mod feature;
pub mod run;
pub mod template;

verus! {

} // verus!
