use vstd::prelude::*;

verus! {

/// Failure taxonomy of the library.
///
/// `InvalidInput` covers malformed or wrong-length address text, an empty
/// required field, and secret material whose embedded verifying key does not
/// match the one derived from the seed. `ConstructionError` is reserved for an
/// instruction-building step rejecting parameters that passed basic
/// validation, and `InternalError` for unexpected failures such as an
/// exhausted random source; both are reported like `InvalidInput`, never as a
/// process abort.
#[derive(Clone, Copy, Debug, PartialEq, Eq, Structural)]
pub enum ServiceError {
    InvalidInput,
    ConstructionError,
    InternalError,
}

} // verus!
