//! Calls into the platform, as far as their outcome is handled here.

use vstd::prelude::*;

verus! {

/// The error type of the `jni` crate, `jni::errors::Error`. Nothing is
/// claimed of its values: they are only told apart from success.
#[verifier::external_type_specification]
#[verifier::external_body]
pub struct ExJniError(jni::errors::Error);

/// Makes the platform call `fun` and keeps what it returned: `Some` of the
/// value where the call succeeded, `None` where it failed. The error itself
/// is dropped.
pub fn call_method<T, F: Fn() -> Result<T, jni::errors::Error>>(fun: F) -> (value: Option<T>)
    requires
        fun.requires(()),
    ensures
        match value {
            Some(v) => fun.ensures((), Ok(v)),
            None => exists|e: jni::errors::Error| fun.ensures((), Err(e)),
        },
{
    match fun() {
        Ok(v) => Some(v),
        Err(_) => None,
    }
}

} // verus!
