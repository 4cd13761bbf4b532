//! Extensions, as a handler asks for them.

use vstd::prelude::*;
use crate::errors::ActorError;
use crate::system::ExtensionMissingError;

verus! {

/// The extension of type `T` that a system was built with.
#[derive(Debug)]
pub struct Extension<T>(pub T);

impl<T> Extension<T> {
    /// Wraps what the system holds for the type `T`, whose name is `module`,
    /// and reports the extension as missing where it holds nothing.
    pub fn extract(found: Option<T>, module: &'static str) -> (r: Result<Extension<T>, ActorError>)
        ensures
            match found {
                Some(value) => r == Ok::<Extension<T>, ActorError>(Extension(value)),
                None => r matches Err(ActorError::MissingExtension(missing)) && missing.module
                    == module,
            },
    {
        match found {
            Some(value) => Ok(Extension(value)),
            None => Err(ActorError::MissingExtension(ExtensionMissingError { module })),
        }
    }
}

} // verus!
