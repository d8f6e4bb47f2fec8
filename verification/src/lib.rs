//! Verified core of the anydoc PHP extension: format naming and resolution,
//! the mapping of conversion failures onto the extension's exception
//! classes, and the lazy translation of anydoc's document model into the
//! extension's readonly PHP model.
use vstd::prelude::*;

pub mod exception;
pub mod format;
pub mod model;
pub mod source;

verus! {

} // verus!
