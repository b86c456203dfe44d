//! The recovery hook. Resuming a swap from a stored state is deliberately
//! left open beyond its error type: a recovery attempt either succeeds or
//! reports this error.

use vstd::prelude::*;

verus! {

/// A recovery attempt failed.
#[derive(Debug, Clone, Copy, PartialEq, Eq, Structural)]
pub struct Error;

} // verus!
