//! Keeps the set of meter states closed.

use crate::meter::{Nested, Root};
use vstd::prelude::*;

verus! {

/// Implemented by the two states of a meter and by nothing else.
pub trait Sealed {

}

impl Sealed for Root {

}

impl Sealed for Nested {

}

} // verus!
