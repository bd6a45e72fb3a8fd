//! Moving one field out of a struct, leaving `()` in its place, and putting
//! a value back into such a place. The marker type picks the field when two
//! fields have the same type.

use vstd::prelude::*;

verus! {

/// Takes the field marked by `U`, of type `T`, out of a struct.
pub trait StructTakeField<T, U>: Sized {
    type Rest;

    /// The value of the marked field.
    spec fn field_value(self) -> T;

    /// The struct with `()` in place of the marked field.
    spec fn rest(self) -> Self::Rest;

    fn take_field(self) -> (res: (T, Self::Rest))
        ensures
            res.0 == self.field_value(),
            res.1 == self.rest(),
    ;
}

/// Puts a value of type `T` into the empty field marked by `U`.
pub trait StructWithField<T, U>: Sized {
    type Output;

    /// The struct with `value` in the marked field and every other field kept.
    spec fn filled(self, value: T) -> Self::Output;

    fn with_field(self, value: T) -> (res: Self::Output)
        ensures
            res == self.filled(value),
    ;
}

} // verus!
