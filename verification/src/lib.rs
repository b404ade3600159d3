//! Layered records: an overlay record carries values that are merged onto a
//! base record, field by field.

pub mod apply;
pub mod classify;
pub mod derive;
pub mod error;
pub mod generate;
pub mod merge;
pub mod params;
pub mod policy;
pub mod record;
pub mod strip;
pub mod synth;
pub mod text;

pub use apply::{
    apply_if_present, apply_nested, apply_or_install, overwrite, resolve_and_overwrite,
    resolve_then_apply, Applicable, ResolveToBase,
};
pub use generate::{enumify_struct, EnumifyStructOutput};
