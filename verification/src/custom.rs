//! A custom outputter: wraps a value together with the function that
//! renders it, so that one-off output logic needs no dedicated type.

use vstd::prelude::*;

verus! {

/// Wraps some value and its output function. The function receives the
/// value and the ambient prettiness flag and returns the rendered text.
pub struct Custom<T, F> {
    value: T,
    func: F,
}

impl<T, F> Custom<T, F> {
    /// The wrapped value.
    pub closed spec fn value_spec(&self) -> T {
        self.value
    }

    /// The wrapped output function.
    pub closed spec fn func_spec(&self) -> F {
        self.func
    }

    /// Creates a new custom outputter over the given value.
    pub fn new(value: T, func: F) -> (r: Self) where F: Fn(T, bool) -> String
        ensures
            r.value_spec() == value,
            r.func_spec() == func,
    {
        Custom { value, func }
    }

    /// Replaces the value to output with another one, keeping the output
    /// function.
    pub fn with_value(self, value: T) -> (r: Self)
        ensures
            r.value_spec() == value,
            r.func_spec() == self.func_spec(),
    {
        Custom { value, ..self }
    }

    /// Renders the wrapped value with the wrapped function. The result is
    /// whatever the function returns for this value and flag.
    pub fn output(&self, alternate: bool) -> (r: String) where T: Copy, F: Fn(T, bool) -> String
        requires
            call_requires(self.func_spec(), (self.value_spec(), alternate)),
        ensures
            call_ensures(self.func_spec(), (self.value_spec(), alternate), r),
    {
        (self.func)(self.value, alternate)
    }
}

} // verus!
