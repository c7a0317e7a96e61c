//! The seal on the marker of stand-in implementations.

use vstd::prelude::*;
use crate::layer1::database::MockDatabaseProvider;

verus! {

/// Implemented by the stand-ins of this crate and by nothing else.
pub trait Sealed {

}

impl Sealed for MockDatabaseProvider {

}

} // verus!
