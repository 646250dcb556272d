//! A feature-flag evaluation facade.
//!
//! Call sites ask whether a named flag is enabled; the answer comes from the
//! [`Evaluator`] that was ambient when the asking [`Context`] was created.
//!
//! The evaluators that are installed are held in a [`Registry`], and the
//! current context in a [`LocalContextStack`](context::stack::LocalContextStack):
//! plain values that are passed to the functions that read or change them, so
//! that every change is stated in a contract. A
//! [`ContextStack`](context::stack::ContextStack) keeps one current context
//! for each thread.

pub mod context;
pub mod evaluator;
pub mod extensions;
pub mod feature;
pub mod fields;
pub mod registry;
pub mod utils;
pub mod value;

pub use crate::context::Context;
pub use crate::evaluator::Evaluator;
pub use crate::feature::Feature;
pub use crate::registry::{set_global_default, try_set_global_default, Registry};
pub use crate::value::Value;
