//! Enforces compile-time resource constraints on product types.
//!
//! A type definition annotated with a size limit and a heap allowance is
//! validated and turned into compile-time assertion artifacts: one
//! capability assertion per field (skipped when indirection is allowed) and
//! one type-level size assertion, which the host compiler evaluates so that
//! a build fails whenever the declared bound or ownership policy is
//! violated.

pub mod diag;
pub mod emit;
pub mod expand;
pub mod laws;
pub mod model;
pub mod outer_attr;
pub mod registry;
pub mod text;

pub use diag::AttrFault;
pub use diag::Diagnostic;
pub use diag::TargetKind;
pub use expand::expand_resource;
pub use expand::map_fields;
pub use expand::resource_derive;
pub use expand::LifetimeAttr;
pub use model::AttrInput;
pub use model::AttrValue;
pub use model::FieldTy;
pub use model::TypeDef;
pub use outer_attr::parse_struct_attrs;
pub use outer_attr::OuterAttributes;
pub use registry::registry_contains;
pub use registry::StackOnly;
