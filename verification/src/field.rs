//! A single key-value pair as a standalone renderable value.

use crate::render::Render;
use vstd::prelude::*;
use vstd::string::StringExecFns;

verus! {

/// A `key: value` pair that renders honouring the propagated output mode:
/// the key in its one-line form, the value under the ambient mode.
pub struct Field<'a, K, V> {
    key: &'a K,
    val: &'a V,
}

impl<'a, K, V> Field<'a, K, V> {
    /// The key.
    pub closed spec fn key_spec(&self) -> K {
        *self.key
    }

    /// The value.
    pub closed spec fn val_spec(&self) -> V {
        *self.val
    }

    /// Creates one [`Field`] ready to be rendered.
    pub fn new(key: &'a K, val: &'a V) -> (r: Self)
        ensures
            r.key_spec() == *key,
            r.val_spec() == *val,
    {
        Field { key, val }
    }
}

impl<'a, K: Render, V: Render> Render for Field<'a, K, V> {
    open spec fn render_spec(&self, alternate: bool) -> Seq<char> {
        self.key_spec().render_spec(false) + ": "@ + self.val_spec().render_spec(alternate)
    }

    fn render(&self, alternate: bool) -> (r: String) {
        let mut text = self.key.render(false);
        text.append(": ");
        let rendered = self.val.render(alternate);
        text.append(rendered.as_str());
        text
    }
}

} // verus!
