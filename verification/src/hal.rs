//! The platform interface that the ext4 engine asks for the time.
use vstd::prelude::*;

verus! {

/// The platform's side of the ext4 engine: it tells the wall-clock time.
/// Reading the clock is the application's work; the library keeps only the
/// type.
pub struct ArceOsHal;

} // verus!
