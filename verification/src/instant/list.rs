//! Instant display of iterable lists.

use crate::Alternate;
use crate::embed::EmbedList;
use crate::instant::Iterable;
use crate::instant::Kind;
use crate::list::ListShow;
use crate::list::items_text;
use crate::render::Render;
use crate::resolve_spec;
use crate::sink::GroupKind;
use crate::sink::Sink;
use crate::sink::StringSink;
use crate::sink::group_text;
use core::marker::PhantomData;
use vstd::prelude::*;

verus! {

/// Gives any iterable list a renderable, bracket-framed form.
pub struct InstantList<I, K> {
    /// The requested output mode, resolved against the ambient flag at
    /// rendering time.
    pub alt: Alternate,
    /// The item source.
    pub val: I,
    /// Ties the source's kind parameter to the wrapper.
    pub marker: PhantomData<K>,
}

impl<I, K> InstantList<I, K> where K: Kind, I: Iterable<K> {
    /// Creates an [`InstantList`] with the given mode setting.
    pub fn new(alt: Alternate, val: I) -> (r: Self)
        ensures
            r.alt == alt,
            r.val == val,
    {
        InstantList { alt, val, marker: PhantomData }
    }

    /// Creates an [`InstantList`] with the [`Alternate::Inherit`] setting.
    pub fn inherit(val: I) -> (r: Self)
        ensures
            r.alt == Alternate::Inherit,
            r.val == val,
    {
        InstantList { alt: Alternate::Inherit, val, marker: PhantomData }
    }
}

impl<I, K> Render for InstantList<I, K> where K: Kind, I: Iterable<K>, I::Item: Render {
    open spec fn render_spec(&self, alternate: bool) -> Seq<char> {
        group_text(
            GroupKind::Sequence,
            items_text(self.val.seq_spec(), resolve_spec(self.alt, alternate)),
            alternate,
        )
    }

    fn render(&self, alternate: bool) -> (r: String) {
        let sink = StringSink::new(alternate);
        let mut show = ListShow::new(sink, self.alt);
        show.items_from_iter(&self.val);
        let outcome = show.finish();
        proof {
            assert(outcome is Ok);
        }
        let done = show.into_sink();
        let text = done.into_string();
        proof {
            assert(text@ =~= self.render_spec(alternate));
        }
        text
    }
}

impl<I, K, S: Sink> EmbedList<S> for InstantList<I, K> where
    K: Kind,
    I: Iterable<K>,
    I::Item: Render,
 {
    fn embed(&self, show: &mut ListShow<S>) {
        show.items_from_iter(&self.val);
    }
}

} // verus!
