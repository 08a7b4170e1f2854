//! Keeps the set of sensor phases closed.
use vstd::prelude::*;

verus! {

/// Implemented by the phases of this crate and by nothing else.
pub trait Sealed {

}

} // verus!
