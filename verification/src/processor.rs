//! Composable processing steps: a pair of processors runs the first and then
//! the second on its output, and `()` passes its input through.

use vstd::prelude::*;

verus! {

/// A processing step from `Input` to `Self::Output`.
pub trait Processor<Input> {
    type Output;

    fn exec(&self, input: Input) -> Self::Output;
}

impl<T, U, Input> Processor<Input> for (T, U) where T: Processor<Input>, U: Processor<T::Output> {
    type Output = U::Output;

    /// Runs `self.0` on `input`, then `self.1` on its output.
    fn exec(&self, input: Input) -> (res: U::Output)
        ensures
            exists|mid: T::Output|
                call_ensures(T::exec, (&self.0, input), mid) && call_ensures(
                    U::exec,
                    (&self.1, mid),
                    res,
                ),
    {
        self.1.exec(self.0.exec(input))
    }
}

impl<Input> Processor<Input> for () {
    type Output = Input;

    /// Hands the input back unchanged.
    fn exec(&self, input: Input) -> (res: Input)
        ensures
            res == input,
    {
        input
    }
}

} // verus!
