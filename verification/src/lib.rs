//! Purchase and quality management: the decision logic behind the purchase
//! and quality pages, with its contracts proved by Verus.
use vstd::prelude::*;

pub mod text;
pub mod decimal;
pub mod status;
pub mod date;
pub mod query;
pub mod form;
pub mod workflow;
pub mod ids;
pub mod pages;

verus! {

} // verus!
