//! Output of path-like values: the items of a sequence joined by a
//! delimiter, with a replacer shown when the sequence is empty and an
//! optional delimiter prepended before the first item.

use crate::params::Params;
use crate::render::Render;
use vstd::prelude::*;
use vstd::string::StringExecFns;

verus! {

/// Marks something that should not be outputted: it renders as empty
/// text. Used as the default replacer of [`PathLike`].
#[derive(Debug, Clone, Copy, PartialEq, Eq)]
pub struct NoOutput;

impl Render for NoOutput {
    open spec fn render_spec(&self, alternate: bool) -> Seq<char> {
        Seq::empty()
    }

    fn render(&self, alternate: bool) -> (r: String) {
        String::new()
    }
}

/// Joins delimiter-item components, one-line each, one per item.
pub open spec fn components_text<D: Render, T: Render>(delimiter: D, items: Seq<T>) -> Seq<char>
    decreases items.len(),
{
    if items.len() == 0 {
        Seq::empty()
    } else {
        components_text(delimiter, items.drop_last()) + delimiter.render_spec(false)
            + items.last().render_spec(false)
    }
}

/// The text of a path-like sequence: its replacer when empty; otherwise
/// every item joined by the delimiter, with the delimiter also prepended
/// before the first item when `prepend` is set. The first item of a
/// non-prepended path inherits the ambient mode; every other component is
/// rendered one-line.
pub open spec fn path_text<D: Render, R: Render, T: Render>(
    delimiter: D,
    replacer: R,
    prepend: bool,
    items: Seq<T>,
    alternate: bool,
) -> Seq<char> {
    if items.len() == 0 {
        replacer.render_spec(alternate)
    } else if prepend {
        components_text(delimiter, items)
    } else {
        items[0].render_spec(alternate) + components_text(delimiter, items.skip(1))
    }
}

/// Helps to output different path-like types: anything whose items are
/// renderable can be joined this way. Implements [`Params`] and is
/// intended as the argument of
/// [`WithParams::with_params`](crate::WithParams::with_params).
pub struct PathLike<D, R> {
    /// The text between two items.
    pub delimiter: D,
    /// What an empty sequence renders as.
    pub replacer: R,
    /// Whether the delimiter also precedes the first item.
    pub prepend: bool,
}

impl<D> PathLike<D, NoOutput> {
    /// Creates a path-like output with the given delimiter, no replacer
    /// output, and the given prepending choice.
    pub fn new(delimiter: D, prepend: bool) -> (r: Self)
        ensures
            r.delimiter == delimiter,
            r.replacer == NoOutput,
            r.prepend == prepend,
    {
        PathLike { delimiter, replacer: NoOutput, prepend }
    }
}

impl<D1, R> PathLike<D1, R> {
    /// Replaces the delimiter, possibly changing its type.
    pub fn with_delimiter<D2>(self, delimiter: D2) -> (r: PathLike<D2, R>)
        ensures
            r.delimiter == delimiter,
            r.replacer == self.replacer,
            r.prepend == self.prepend,
    {
        let PathLike { delimiter: _, replacer, prepend } = self;
        PathLike { delimiter, replacer, prepend }
    }
}

impl<D, R1> PathLike<D, R1> {
    /// Replaces the replacer, possibly changing its type.
    pub fn with_replacer<R2>(self, replacer: R2) -> (r: PathLike<D, R2>)
        ensures
            r.delimiter == self.delimiter,
            r.replacer == replacer,
            r.prepend == self.prepend,
    {
        let PathLike { delimiter, replacer: _, prepend } = self;
        PathLike { delimiter, replacer, prepend }
    }
}

impl<D, R> PathLike<D, R> {
    /// Replaces the prepending choice.
    pub fn with_prepend(self, prepend: bool) -> (r: Self)
        ensures
            r.delimiter == self.delimiter,
            r.replacer == self.replacer,
            r.prepend == prepend,
    {
        PathLike { prepend, ..self }
    }
}

/// Renders one delimiter-item component, both parts one-line.
pub fn output_component<D: Render, T: Render>(delimiter: &D, item: &T) -> (r: String)
    ensures
        r@ == delimiter.render_spec(false) + item.render_spec(false),
{
    let mut out = delimiter.render(false);
    let rendered = item.render(false);
    out.append(rendered.as_str());
    out
}

impl<D: Render, R: Render, T: Render> Params<Vec<T>> for PathLike<D, R> {
    open spec fn fmt_spec(&self, value: &Vec<T>, alternate: bool) -> Seq<char> {
        path_text(self.delimiter, self.replacer, self.prepend, value@, alternate)
    }

    fn fmt(&self, value: &Vec<T>, alternate: bool) -> (r: String) {
        if value.len() == 0 {
            return self.replacer.render(alternate);
        }
        let mut out: String;
        let mut i: usize;
        if self.prepend {
            out = String::new();
            i = 0;
            proof {
                assert(components_text(self.delimiter, value@.take(0)) =~= Seq::<char>::empty());
            }
        } else {
            let first = &value[0];
            out = first.render(alternate);
            i = 1;
            proof {
                assert(value@.subrange(1, 1) =~= Seq::<T>::empty());
            }
        }
        while i < value.len()
            invariant
                i <= value@.len(),
                value@.len() > 0,
                if self.prepend {
                    out@ == components_text(self.delimiter, value@.take(i as int))
                } else {
                    i >= 1 && out@ == value@[0].render_spec(alternate) + components_text(
                        self.delimiter,
                        value@.subrange(1, i as int),
                    )
                },
            decreases value@.len() - i,
        {
            let piece = output_component(&self.delimiter, &value[i]);
            out.append(piece.as_str());
            proof {
                if self.prepend {
                    assert(value@.take(i + 1).drop_last() =~= value@.take(i as int));
                } else {
                    assert(value@.subrange(1, i + 1).drop_last() =~= value@.subrange(
                        1,
                        i as int,
                    ));
                }
            }
            i = i + 1;
        }
        proof {
            assert(value@.take(value@.len() as int) =~= value@);
            assert(value@.subrange(1, value@.len() as int) =~= value@.skip(1));
        }
        out
    }
}

} // verus!
