//! Fallible conversion.
use vstd::prelude::*;

verus! {

/// Conversion of a value into a `T`. On the values that `can_convert`
/// admits, it succeeds with a value whose view is `converted`.
pub trait TryInto<T: View> {
    type Err;

    /// The values that the conversion accepts.
    spec fn can_convert(&self) -> bool;

    /// The view of what an accepted value converts to.
    spec fn converted(&self) -> T::V;

    fn try_into(self) -> (r: Result<T, Self::Err>)
        requires
            self.can_convert(),
        ensures
            r is Ok,
            r matches Ok(t) ==> t@ == self.converted(),
    ;
}

} // verus!
