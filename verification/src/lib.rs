//! Turns the description of a COM type library into source declarations in
//! the dialect of the `winapi` binding macros.
//!
//! The library works on a recorded description of the type library: plain
//! values that hold what the native type-description interfaces answered
//! ([`types`]). A pass over the description ([`generate`]) writes one block
//! of declarations for each described type ([`emit`]), resolves type
//! descriptors to type expressions on the way ([`resolve`], [`arguments`]),
//! and gathers statistics ([`pass`]).
//!
//! Every emitted character, every counter and every reason to stop is
//! stated as a function of the description. What holds of every
//! description is stated and proved in [`laws`], [`frame`] and
//! [`placement`].

pub mod arguments;
pub mod codes;
pub mod emit;
pub mod error;
pub mod frame;
pub mod generate;
pub mod laws;
pub mod pass;
pub mod placement;
pub mod rc;
pub mod resolve;
pub mod text;
pub mod types;

pub use arguments::{try_vartype_mutator, vartype_mutator};
pub use error::{to_result, Defect, Error, Halt};
pub use generate::{
    build, emit_described_type, emit_type, emit_type_slot, reads, try_build, Reads,
};
pub use pass::{BuildResult, BuildResultView, Pass};
pub use rc::BString;
pub use resolve::{
    sanitize_reserved, try_type_to_string, type_to_string, well_known_type_name,
    well_known_type_to_string,
};
pub use types::{
    ElemDesc, Field, FuncDesc, Function, Guid, Param, ReferencedType, TypeAttr, TypeDesc, TypeInfo,
    TypeLib, Var, VarDesc, Variant,
};
