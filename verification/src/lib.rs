//! Desugaring of join stages in an aggregation pipeline.
//!
//! The pipeline is represented by the `air` module. The join pass rewrites every
//! `Join` stage into a `Lookup`, `Unwind`, `ReplaceWith`, `Project` sequence and every
//! `EquiJoin` stage into an `EquiLookup`, `Unwind` pair.

pub mod air;
pub mod projection;
pub mod desugarer;
pub mod join_spec;
pub mod join;
pub mod join_laws;
