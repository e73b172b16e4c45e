//! Rust-side view of OCaml runtime values: the word encoding of immediates,
//! block headers and tags, the error model, and the planning logic of the
//! code generators that export Rust functions and types to OCaml.
use vstd::prelude::*;

pub mod mlvalues;
pub mod tag;
pub mod text;
pub mod sig;
pub mod derive;
pub mod func;
pub mod sigs;
pub mod value;
pub mod error;
pub mod runtime;
pub mod conv;
pub mod types;
pub mod state;
pub mod example_enums;
pub mod example;
pub mod suite_conv;
pub mod suite_runtime;
pub mod suite_types;

verus! {

} // verus!
