//! Errors raised while assembling an application descriptor.
use vstd::prelude::*;

verus! {

/// Why a descriptor could not be produced.
#[derive(Debug, Clone, Copy)]
pub enum Error {
    /// A mandatory field was never given; carries the field's name.
    MissingField(&'static str),
}

/// Outcome of an operation of this library.
pub type Result<T> = core::result::Result<T, Error>;

} // verus!
