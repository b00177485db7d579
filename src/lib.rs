//! A fixed-capacity sequence with a stack-like API: push, pop, clear and
//! queries on length and capacity, where the capacity is a type parameter.
use vstd::prelude::*;

mod const_vec;
pub mod laws;

pub use crate::const_vec::{pop_model, push_model, written_after_push, ConstVec};
