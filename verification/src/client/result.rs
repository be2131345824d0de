use vstd::prelude::*;
use super::error::Error;

verus! {

/// The result of a client operation.
pub type Result<T> = core::result::Result<T, Error>;

} // verus!
