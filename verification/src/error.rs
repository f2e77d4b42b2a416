//! The generic error type.

use crate::text::LoadFontError;
use crate::texture::LoadTextureError;
use crate::window::CreateWindowError;
use vstd::prelude::*;

verus! {

/// Any error this crate reports, for callers that handle all of them in
/// one place.
#[derive(Clone, Copy, Debug, Eq, PartialEq, Structural)]
pub enum Error {
    CreateWindowError(CreateWindowError),
    LoadFontError(LoadFontError),
    LoadTextureError(LoadTextureError),
}

impl core::convert::From<CreateWindowError> for Error {
    fn from(error: CreateWindowError) -> (r: Error)
        ensures
            r == Error::CreateWindowError(error),
    {
        Error::CreateWindowError(error)
    }
}

impl vstd::std_specs::convert::FromSpecImpl<CreateWindowError> for Error {
    open spec fn obeys_from_spec() -> bool {
        true
    }

    open spec fn from_spec(v: CreateWindowError) -> Error {
        Error::CreateWindowError(v)
    }
}

impl core::convert::From<LoadFontError> for Error {
    fn from(error: LoadFontError) -> (r: Error)
        ensures
            r == Error::LoadFontError(error),
    {
        Error::LoadFontError(error)
    }
}

impl vstd::std_specs::convert::FromSpecImpl<LoadFontError> for Error {
    open spec fn obeys_from_spec() -> bool {
        true
    }

    open spec fn from_spec(v: LoadFontError) -> Error {
        Error::LoadFontError(v)
    }
}

impl core::convert::From<LoadTextureError> for Error {
    fn from(error: LoadTextureError) -> (r: Error)
        ensures
            r == Error::LoadTextureError(error),
    {
        Error::LoadTextureError(error)
    }
}

impl vstd::std_specs::convert::FromSpecImpl<LoadTextureError> for Error {
    open spec fn obeys_from_spec() -> bool {
        true
    }

    open spec fn from_spec(v: LoadTextureError) -> Error {
        Error::LoadTextureError(v)
    }
}

} // verus!
