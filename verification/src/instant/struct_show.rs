//! Instant display of iterable maps.

use crate::Alternate;
use crate::embed::EmbedStruct;
use crate::instant::Iterable;
use crate::instant::Kind;
use crate::pair::DisplayPair;
use crate::render::Render;
use crate::resolve_spec;
use crate::sink::GroupKind;
use crate::sink::Sink;
use crate::sink::StringSink;
use crate::sink::group_text;
use crate::struct_show::StructShow;
use crate::struct_show::pairs_text;
use core::marker::PhantomData;
use vstd::prelude::*;

verus! {

/// Gives any iterable map a renderable, brace-framed form.
pub struct InstantStruct<I, K> {
    /// The requested output mode, resolved against the ambient flag at
    /// rendering time.
    pub alt: Alternate,
    /// The pair source.
    pub val: I,
    /// Ties the source's kind parameter to the wrapper.
    pub marker: PhantomData<K>,
}

impl<I, K> InstantStruct<I, K> where K: Kind, I: Iterable<K> {
    /// Creates an [`InstantStruct`] with the given mode setting.
    pub fn new(alt: Alternate, val: I) -> (r: Self)
        ensures
            r.alt == alt,
            r.val == val,
    {
        InstantStruct { alt, val, marker: PhantomData }
    }

    /// Creates an [`InstantStruct`] with the [`Alternate::Inherit`]
    /// setting.
    pub fn inherit(val: I) -> (r: Self)
        ensures
            r.alt == Alternate::Inherit,
            r.val == val,
    {
        InstantStruct { alt: Alternate::Inherit, val, marker: PhantomData }
    }
}

impl<I, K> Render for InstantStruct<I, K> where K: Kind, I: Iterable<K>, I::Item: DisplayPair {
    open spec fn render_spec(&self, alternate: bool) -> Seq<char> {
        group_text(
            GroupKind::Aggregate,
            pairs_text(self.val.seq_spec(), resolve_spec(self.alt, alternate)),
            alternate,
        )
    }

    fn render(&self, alternate: bool) -> (r: String) {
        let sink = StringSink::new(alternate);
        let mut show = StructShow::new(sink, self.alt);
        show.fields_from_iter(&self.val);
        let outcome = show.finish();
        proof {
            assert(outcome is Ok);
        }
        let done = show.into_sink();
        let text = done.into_string();
        proof {
            assert(text@ =~= self.render_spec(alternate));
        }
        text
    }
}

impl<I, K, S: Sink> EmbedStruct<S> for InstantStruct<I, K> where
    K: Kind,
    I: Iterable<K>,
    I::Item: DisplayPair,
 {
    fn embed(&self, show: &mut StructShow<S>) {
        show.fields_from_iter(&self.val);
    }
}

} // verus!
