//! Text-to-image generation core: device presets, prompt conditioning,
//! the denoising plan with its guidance split, and image finishing.

pub mod device;
pub mod error;
pub mod image;
pub mod pipeline;
pub mod prompt;

use vstd::prelude::*;

verus! {

/// Extends `Option` with a fallible map.
///
/// Mapping a fallible operation over an optional value gives a
/// `Result<Option<U>, E>`, so that an error raised inside the closure
/// reaches the caller directly.
pub trait FallibleMapExt<T, U, E>: Sized {
    /// The optional value that `self` stands for.
    spec fn as_option(&self) -> Option<T>;

    /// Applies the fallible map `f` to the value, if there is one: no value
    /// gives `Ok(None)`, a value gives `f`'s error or `f`'s result in `Some`.
    fn try_map<F: FnOnce(T) -> Result<U, E>>(self, f: F) -> (r: Result<Option<U>, E>)
        requires
            self.as_option() matches Some(x) ==> call_requires(f, (x,)),
        ensures
            self.as_option() is None ==> r == Ok::<Option<U>, E>(None),
            self.as_option() matches Some(x) ==> exists|fr: Result<U, E>|
                #[trigger] call_ensures(f, (x,), fr) && r == match fr {
                    Ok(u) => Ok::<Option<U>, E>(Some(u)),
                    Err(e) => Err::<Option<U>, E>(e),
                },
    ;
}

impl<T, U, E> FallibleMapExt<T, U, E> for Option<T> {
    open spec fn as_option(&self) -> Option<T> {
        *self
    }

    fn try_map<F: FnOnce(T) -> Result<U, E>>(self, f: F) -> (r: Result<Option<U>, E>) {
        match self {
            Some(x) => match f(x) {
                Ok(u) => Ok(Some(u)),
                Err(e) => Err(e),
            },
            None => Ok(None),
        }
    }
}

} // verus!
