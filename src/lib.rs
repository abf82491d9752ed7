use vstd::prelude::*;

pub mod connect;
pub mod error;
pub mod head;
pub mod headers;

verus! {

} // verus!
