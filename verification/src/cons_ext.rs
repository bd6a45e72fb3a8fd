//! Appending to cons lists built from nested pairs: `(a, (b, (c, ())))`.

use vstd::prelude::*;

verus! {

/// A cons list to which a value can be appended at the end.
pub trait ConsWithLast<T>: Sized {
    type Output;

    /// The list with `value` appended at the end.
    spec fn spec_with_last(self, value: T) -> Self::Output;

    fn with_last(self, value: T) -> (res: Self::Output)
        ensures
            res == self.spec_with_last(value),
    ;
}

impl<T> ConsWithLast<T> for () {
    type Output = (T, ());

    open spec fn spec_with_last(self, value: T) -> (T, ()) {
        (value, ())
    }

    fn with_last(self, value: T) -> (res: (T, ())) {
        (value, ())
    }
}

impl<T, T1, T2> ConsWithLast<T> for (T1, T2) where T2: ConsWithLast<T> {
    type Output = (T1, T2::Output);

    open spec fn spec_with_last(self, value: T) -> (T1, T2::Output) {
        (self.0, self.1.spec_with_last(value))
    }

    fn with_last(self, value: T) -> (res: (T1, T2::Output)) {
        (self.0, self.1.with_last(value))
    }
}

} // verus!
