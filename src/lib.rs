//! Verified core of a safe binding to MEOS, a native engine for temporal
//! geometries.
//!
//! The native engine allocates every temporal value and box and hands back an
//! address. This crate holds what the binding decides about those addresses:
//! which subtype tag stands for which variant, when a freshly parsed value is
//! accepted or must be released again, how a sequence handle is replaced after
//! an append that reallocated, how text crosses the C string boundary, and how
//! handles compare.
pub mod boxes;
pub mod compare;
pub mod cstr;
pub mod error;
pub mod handle;
pub mod kind;
pub mod lifecycle;
pub mod sequence;
