//! Typestate builder generation.
//!
//! Given the shape of a record (its name, generic parameters and named
//! fields), the library plans and emits a builder whose const-generic flags
//! make finalizing an incompletely filled record a compile-time error.
pub mod schema;
pub mod naming;
pub mod plan;
pub mod typestate;
pub mod text;
pub mod emit;

pub use emit::{derive_builder, emit_unit};
pub use plan::{plan_builder, BuilderPlan, FlagArg, GenError, Setter};
pub use schema::{FieldDef, Schema, ScopeParam, TypeParam};
