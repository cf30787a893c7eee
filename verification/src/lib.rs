//! A tracing protocol for cycle collection on top of reference counting.
//!
//! A value that lives behind a managed pointer says which managed pointers
//! it owns directly by implementing [`trace::Trace`], and what has to happen
//! before it is reclaimed by implementing [`trace::Finalize`]. The collector
//! reaches every pointer of a value through one of four operations, and each
//! of them writes what it did into a [`journal::Journal`]. The contracts are
//! stated over the journal's view, a [`journal::Ledger`], in which the order
//! of the entries is forgotten.
//!
//! The library implements both capabilities for the types that hold no
//! pointer ([`leaf`]) and for the shapes that are built from other values
//! ([`shapes`], [`tuples`], [`collections`], [`keyed`]). What holds of every
//! implementation that keeps the contracts is proved in [`laws`].
//!
//! [`entry`] holds what the entry points of the hosting contract decide.

pub mod collections;
pub mod entry;
pub mod journal;
pub mod keyed;
pub mod laws;
pub mod leaf;
pub mod shapes;
pub mod sums;
pub mod trace;
pub mod tuples;

pub use crate::journal::{Journal, Pass};
pub use crate::trace::{Finalize, Trace};
