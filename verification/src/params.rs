//! Parameterized output: one params value can render values of a type in
//! a configurable way, without the value's type owning the logic.

use crate::render::Render;
use vstd::prelude::*;

verus! {

/// Performs output of a `T` value according to this value's inner state.
/// The same type may implement `Params` for several output types.
pub trait Params<T> {
    /// The text the given value renders to under these params.
    spec fn fmt_spec(&self, value: &T, alternate: bool) -> Seq<char>;

    /// Renders the given value according to these params.
    fn fmt(&self, value: &T, alternate: bool) -> (r: String)
        ensures
            r@ == self.fmt_spec(value, alternate),
    ;
}

/// A referenced value joined with the params that render it; the pair is
/// itself renderable.
pub struct Parameterized<'a, T, P> {
    /// The value to output.
    pub value: &'a T,
    /// The params that render it.
    pub params: &'a P,
}

impl<'a, T, P> Parameterized<'a, T, P> {
    /// Creates a new instance referencing the related value and params.
    pub fn new(value: &'a T, params: &'a P) -> (r: Self)
        ensures
            r.value == value,
            r.params == params,
    {
        Parameterized { value, params }
    }
}

impl<'a, T, P: Params<T>> Render for Parameterized<'a, T, P> {
    open spec fn render_spec(&self, alternate: bool) -> Seq<char> {
        self.params.fmt_spec(self.value, alternate)
    }

    fn render(&self, alternate: bool) -> (r: String) {
        self.params.fmt(self.value, alternate)
    }
}

/// Simplifies outputting with some `Params` implementor: every value a
/// params type can render gets a `with_params` method.
pub trait WithParams<P>: Sized {
    /// Joins this value with the given params into a renderable pair.
    fn with_params<'a>(&'a self, params: &'a P) -> (r: Parameterized<'a, Self, P>)
        ensures
            r.value == self,
            r.params == params,
    ;
}

impl<T, P: Params<T>> WithParams<P> for T {
    fn with_params<'a>(&'a self, params: &'a P) -> (r: Parameterized<'a, Self, P>) {
        Parameterized::new(self, params)
    }
}

} // verus!
