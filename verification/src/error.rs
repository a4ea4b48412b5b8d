//! Outcome helpers: the shape every task loop uses to drop an error after
//! reporting it to the observability sink, keeping only the value.

use vstd::prelude::*;

verus! {

/// Strip a failed outcome to nothing, keeping a successful value. The
/// reporting itself is the caller's sink's business; these only settle what
/// remains of the outcome.
pub trait PrintError<T, E> {
    /// The value, with a failure reported at warning level and dropped.
    fn ok_or_warn(self) -> Option<T>;

    /// The value, with a failure reported at error level and dropped.
    fn ok_or_log(self) -> Option<T>;

    /// Nothing but the report: the outcome is consumed either way.
    fn into_log(self);
}

impl<T, E> PrintError<T, E> for Result<T, E> {
    fn ok_or_warn(self) -> Option<T> {
        match self {
            Ok(t) => Some(t),
            Err(_) => None,
        }
    }

    fn ok_or_log(self) -> Option<T> {
        match self {
            Ok(t) => Some(t),
            Err(_) => None,
        }
    }

    fn into_log(self) {
    }
}

} // verus!
