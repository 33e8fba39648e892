//! Embedding one grouped output inside another: a type that knows how to
//! feed its entries into an open builder can be spliced into any list or
//! struct output without finishing it.

use crate::Alternate;
use crate::list::ListShow;
use crate::sink::GroupKind;
use crate::sink::Sink;
use crate::sink::WriteFailure;
use crate::sink::group_text;
use crate::struct_show::StructShow;
use vstd::prelude::*;

verus! {

/// Embedding of a type's list output into another list output. An
/// implementation may add items to the open builder, but leaves its mode,
/// its ambient flag and its finished state as they were.
pub trait EmbedList<S: Sink> {
    /// Feeds this value's items into the given open list output.
    fn embed(&self, show: &mut ListShow<S>)
        requires
            old(show).wf(),
        ensures
            final(show).wf(),
            final(show).resolved_spec() == old(show).resolved_spec(),
            final(show).alternate_spec() == old(show).alternate_spec(),
            final(show).finished_spec() == old(show).finished_spec(),
            final(show).sink_spec().out_spec() == old(show).sink_spec().out_spec(),
    ;
}

impl<S: Sink> ListShow<S> {
    /// Embeds the given [`EmbedList`] value's output into this output.
    pub fn embed<E: EmbedList<S>>(&mut self, embedding: &E)
        requires
            old(self).wf(),
        ensures
            final(self).wf(),
            final(self).resolved_spec() == old(self).resolved_spec(),
            final(self).alternate_spec() == old(self).alternate_spec(),
            final(self).finished_spec() == old(self).finished_spec(),
            final(self).sink_spec().out_spec() == old(self).sink_spec().out_spec(),
    {
        embedding.embed(self);
    }
}

/// The whole list output routine for a type that embeds its items: from
/// the creation of a [`ListShow`] with the requested mode to finishing.
pub fn display_list_from_embed<S: Sink, E: EmbedList<S>>(this: &E, f: S, alternate: Alternate) -> (r:
    (Result<(), WriteFailure>, S))
    requires
        f.wf(),
        f.open_spec() is None,
    ensures
        r.1.wf(),
        r.1.open_spec() is None,
        r.1.alternate_spec() == f.alternate_spec(),
        (forall|s: S| #[trigger] s.complete_ok_spec()) ==> r.0 is Ok,
        r.0 is Ok ==> exists|entries: Seq<Seq<char>>|
            r.1.out_spec() == f.out_spec() + group_text(
                GroupKind::Sequence,
                entries,
                f.alternate_spec(),
            ),
{
    let mut show = ListShow::new(f, alternate);
    show.embed(this);
    let ghost entries = show.sink_spec().entries_spec();
    let outcome = show.finish();
    proof {
        if outcome is Ok {
            assert(show.sink_spec().out_spec() == f.out_spec() + group_text(
                GroupKind::Sequence,
                entries,
                f.alternate_spec(),
            ));
        }
    }
    (outcome, show.into_sink())
}

/// Embedding of a type's struct output into another struct output. An
/// implementation may add entries to the open builder, but leaves its
/// mode, its ambient flag and its finished state as they were.
pub trait EmbedStruct<S: Sink> {
    /// Feeds this value's entries into the given open struct output.
    fn embed(&self, show: &mut StructShow<S>)
        requires
            old(show).wf(),
        ensures
            final(show).wf(),
            final(show).resolved_spec() == old(show).resolved_spec(),
            final(show).alternate_spec() == old(show).alternate_spec(),
            final(show).finished_spec() == old(show).finished_spec(),
            final(show).sink_spec().out_spec() == old(show).sink_spec().out_spec(),
    ;
}

impl<S: Sink> StructShow<S> {
    /// Embeds the given [`EmbedStruct`] value's output into this output.
    pub fn embed<E: EmbedStruct<S>>(&mut self, embedding: &E)
        requires
            old(self).wf(),
        ensures
            final(self).wf(),
            final(self).resolved_spec() == old(self).resolved_spec(),
            final(self).alternate_spec() == old(self).alternate_spec(),
            final(self).finished_spec() == old(self).finished_spec(),
            final(self).sink_spec().out_spec() == old(self).sink_spec().out_spec(),
    {
        embedding.embed(self);
    }
}

/// The whole struct output routine for a type that embeds its entries:
/// from the creation of a [`StructShow`] with the requested mode to
/// finishing.
pub fn display_struct_from_embed<S: Sink, E: EmbedStruct<S>>(
    this: &E,
    f: S,
    alternate: Alternate,
) -> (r: (Result<(), WriteFailure>, S))
    requires
        f.wf(),
        f.open_spec() is None,
    ensures
        r.1.wf(),
        r.1.open_spec() is None,
        r.1.alternate_spec() == f.alternate_spec(),
        (forall|s: S| #[trigger] s.complete_ok_spec()) ==> r.0 is Ok,
        r.0 is Ok ==> exists|entries: Seq<Seq<char>>|
            r.1.out_spec() == f.out_spec() + group_text(
                GroupKind::Aggregate,
                entries,
                f.alternate_spec(),
            ),
{
    let mut show = StructShow::new(f, alternate);
    show.embed(this);
    let ghost entries = show.sink_spec().entries_spec();
    let outcome = show.finish();
    proof {
        if outcome is Ok {
            assert(show.sink_spec().out_spec() == f.out_spec() + group_text(
                GroupKind::Aggregate,
                entries,
                f.alternate_spec(),
            ));
        }
    }
    (outcome, show.into_sink())
}

} // verus!
