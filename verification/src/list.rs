//! The sequence builder: accumulates ordered items into a bracket-framed
//! output. Structurally identical to the aggregate builder minus keys.

use crate::Alternate;
use crate::instant::Iterable;
use crate::instant::Kind;
use crate::render::Render;
use crate::resolve_spec;
use crate::sink::GroupKind;
use crate::sink::Sink;
use crate::sink::WriteFailure;
use crate::sink::group_text;
use vstd::prelude::*;

verus! {

/// The text of one sequence item under the entry's effective mode.
pub open spec fn item_text<V: Render>(val: V, mode: bool) -> Seq<char> {
    val.render_spec(mode)
}

/// The texts of a batch of sequence items, in order.
pub open spec fn items_text<V: Render>(items: Seq<V>, mode: bool) -> Seq<Seq<char>> {
    items.map_values(|v: V| item_text(v, mode))
}

/// Outputs listed data as a bracket-framed group of items, honouring the
/// propagated output mode.
pub struct ListShow<S: Sink> {
    sink: S,
    mode: bool,
    inherited: bool,
    done: bool,
}

impl<S: Sink> ListShow<S> {
    /// The sink this builder owns.
    pub closed spec fn sink_spec(&self) -> S {
        self.sink
    }

    /// The frozen effective mode items are rendered under.
    pub closed spec fn resolved_spec(&self) -> bool {
        self.mode
    }

    /// The ambient prettiness flag read from the sink at construction.
    pub closed spec fn alternate_spec(&self) -> bool {
        self.inherited
    }

    /// Whether `finish` has been called.
    pub closed spec fn finished_spec(&self) -> bool {
        self.done
    }

    /// Validity of the builder: its sink is valid, carries the flag the
    /// builder froze, and holds an open sequence group for exactly as long
    /// as the builder is unfinished.
    pub open spec fn wf(&self) -> bool {
        &&& self.sink_spec().wf()
        &&& self.alternate_spec() == self.sink_spec().alternate_spec()
        &&& if self.finished_spec() {
            self.sink_spec().open_spec() is None
        } else {
            self.sink_spec().open_spec() == Some(GroupKind::Sequence)
        }
    }

    /// Creates one [`ListShow`], resolving and freezing the effective mode
    /// from the requested one and the sink's ambient flag, and begins a
    /// grouped write on the sink.
    pub fn new(sink: S, alternate: Alternate) -> (s: Self)
        requires
            sink.wf(),
            sink.open_spec() is None,
        ensures
            s.wf(),
            !s.finished_spec(),
            s.alternate_spec() == sink.alternate_spec(),
            s.resolved_spec() == resolve_spec(alternate, sink.alternate_spec()),
            s.sink_spec().out_spec() == sink.out_spec(),
            s.sink_spec().entries_spec() == Seq::<Seq<char>>::empty(),
    {
        let mut sink = sink;
        let inherited = sink.alternate();
        let mode = alternate.resolve(inherited);
        sink.begin_group(GroupKind::Sequence);
        ListShow { sink, mode, inherited, done: false }
    }

    /// Creates one [`ListShow`] with the [`Alternate::Inherit`] setting.
    pub fn inherit(sink: S) -> (s: Self)
        requires
            sink.wf(),
            sink.open_spec() is None,
        ensures
            s.wf(),
            !s.finished_spec(),
            s.alternate_spec() == sink.alternate_spec(),
            s.resolved_spec() == sink.alternate_spec(),
            s.sink_spec().out_spec() == sink.out_spec(),
            s.sink_spec().entries_spec() == Seq::<Seq<char>>::empty(),
    {
        Self::new(sink, Alternate::Inherit)
    }

    fn append_item<V: Render>(&mut self, val: &V, mode: bool)
        requires
            old(self).wf(),
        ensures
            final(self).wf(),
            final(self).resolved_spec() == old(self).resolved_spec(),
            final(self).alternate_spec() == old(self).alternate_spec(),
            final(self).finished_spec() == old(self).finished_spec(),
            final(self).sink_spec().out_spec() == old(self).sink_spec().out_spec(),
            old(self).finished_spec() ==> *final(self) == *old(self),
            !old(self).finished_spec() ==> final(self).sink_spec().entries_spec() == old(
                self,
            ).sink_spec().entries_spec().push(item_text(*val, mode)),
    {
        if !self.done {
            let text = val.render(mode);
            self.sink.append_entry(text.as_str());
        }
    }

    /// Adds one item to the list output; a no-op once the builder is
    /// finished. The item is rendered under the builder's resolved mode.
    pub fn item<V: Render>(&mut self, val: &V)
        requires
            old(self).wf(),
        ensures
            final(self).wf(),
            final(self).resolved_spec() == old(self).resolved_spec(),
            final(self).alternate_spec() == old(self).alternate_spec(),
            final(self).finished_spec() == old(self).finished_spec(),
            final(self).sink_spec().out_spec() == old(self).sink_spec().out_spec(),
            old(self).finished_spec() ==> *final(self) == *old(self),
            !old(self).finished_spec() ==> final(self).sink_spec().entries_spec() == old(
                self,
            ).sink_spec().entries_spec().push(item_text(*val, old(self).resolved_spec())),
    {
        let mode = self.mode;
        self.append_item(val, mode);
    }

    /// Adds one item rendered under an independently resolved mode, for
    /// this entry only; the builder's own resolved mode is left untouched.
    /// A no-op once finished.
    pub fn item_override<V: Render>(&mut self, val: &V, alternate: Alternate)
        requires
            old(self).wf(),
        ensures
            final(self).wf(),
            final(self).resolved_spec() == old(self).resolved_spec(),
            final(self).alternate_spec() == old(self).alternate_spec(),
            final(self).finished_spec() == old(self).finished_spec(),
            final(self).sink_spec().out_spec() == old(self).sink_spec().out_spec(),
            old(self).finished_spec() ==> *final(self) == *old(self),
            !old(self).finished_spec() ==> final(self).sink_spec().entries_spec() == old(
                self,
            ).sink_spec().entries_spec().push(
                item_text(*val, resolve_spec(alternate, old(self).alternate_spec())),
            ),
    {
        let mode = alternate.resolve(self.inherited);
        self.append_item(val, mode);
    }

    /// Adds one optional item if it is present; emits nothing otherwise.
    /// A no-op once finished.
    pub fn item_opt<V: Render>(&mut self, val: &Option<V>)
        requires
            old(self).wf(),
        ensures
            final(self).wf(),
            final(self).resolved_spec() == old(self).resolved_spec(),
            final(self).alternate_spec() == old(self).alternate_spec(),
            final(self).finished_spec() == old(self).finished_spec(),
            final(self).sink_spec().out_spec() == old(self).sink_spec().out_spec(),
            old(self).finished_spec() || val is None ==> *final(self) == *old(self),
            !old(self).finished_spec() && val is Some ==> final(self).sink_spec().entries_spec()
                == old(self).sink_spec().entries_spec().push(
                item_text(val->0, old(self).resolved_spec()),
            ),
    {
        match val {
            Some(actual) => self.item(actual),
            None => (),
        }
    }

    /// Adds one optional item under an independently resolved mode if it
    /// is present. A no-op once finished.
    pub fn item_opt_override<V: Render>(&mut self, val: &Option<V>, alternate: Alternate)
        requires
            old(self).wf(),
        ensures
            final(self).wf(),
            final(self).resolved_spec() == old(self).resolved_spec(),
            final(self).alternate_spec() == old(self).alternate_spec(),
            final(self).finished_spec() == old(self).finished_spec(),
            final(self).sink_spec().out_spec() == old(self).sink_spec().out_spec(),
            old(self).finished_spec() || val is None ==> *final(self) == *old(self),
            !old(self).finished_spec() && val is Some ==> final(self).sink_spec().entries_spec()
                == old(self).sink_spec().entries_spec().push(
                item_text(val->0, resolve_spec(alternate, old(self).alternate_spec())),
            ),
    {
        match val {
            Some(actual) => self.item_override(actual, alternate),
            None => (),
        }
    }

    /// Adds several items from a slice, in order.
    pub fn items<V: Render>(&mut self, items: &[V])
        requires
            old(self).wf(),
        ensures
            final(self).wf(),
            final(self).resolved_spec() == old(self).resolved_spec(),
            final(self).alternate_spec() == old(self).alternate_spec(),
            final(self).finished_spec() == old(self).finished_spec(),
            final(self).sink_spec().out_spec() == old(self).sink_spec().out_spec(),
            old(self).finished_spec() ==> *final(self) == *old(self),
            !old(self).finished_spec() ==> final(self).sink_spec().entries_spec() == old(
                self,
            ).sink_spec().entries_spec() + items_text(items@, old(self).resolved_spec()),
    {
        if self.done {
            return ;
        }
        let ghost m = self.mode;
        let ghost base = self.sink.entries_spec();
        let mut i: usize = 0;
        while i < items.len()
            invariant
                i <= items@.len(),
                self.wf(),
                !self.finished_spec(),
                !old(self).finished_spec(),
                self.resolved_spec() == old(self).resolved_spec(),
                self.alternate_spec() == old(self).alternate_spec(),
                self.sink_spec().out_spec() == old(self).sink_spec().out_spec(),
                m == old(self).resolved_spec(),
                base == old(self).sink_spec().entries_spec(),
                self.sink_spec().entries_spec() == base + items_text(items@.take(i as int), m),
            decreases items@.len() - i,
        {
            self.item(&items[i]);
            proof {
                assert(items_text(items@.take(i + 1), m) =~= items_text(
                    items@.take(i as int),
                    m,
                ).push(item_text(items@[i as int], m)));
            }
            i = i + 1;
        }
        proof {
            assert(items@.take(items@.len() as int) =~= items@);
        }
    }

    /// Adds several items from a revisitable source, in iteration order.
    pub fn items_from_iter<KK: Kind, I: Iterable<KK>>(&mut self, items: &I) where I::Item: Render
        requires
            old(self).wf(),
        ensures
            final(self).wf(),
            final(self).resolved_spec() == old(self).resolved_spec(),
            final(self).alternate_spec() == old(self).alternate_spec(),
            final(self).finished_spec() == old(self).finished_spec(),
            final(self).sink_spec().out_spec() == old(self).sink_spec().out_spec(),
            old(self).finished_spec() ==> *final(self) == *old(self),
            !old(self).finished_spec() ==> final(self).sink_spec().entries_spec() == old(
                self,
            ).sink_spec().entries_spec() + items_text(
                items.seq_spec(),
                old(self).resolved_spec(),
            ),
    {
        if self.done {
            return ;
        }
        let collected = items.iter();
        self.items(collected.as_slice());
    }

    /// Finishes the list output: transitions the builder to its finished
    /// state and delegates to the sink's completion, returning its result.
    /// A second call changes nothing and reports success.
    pub fn finish(&mut self) -> (r: Result<(), WriteFailure>)
        requires
            old(self).wf(),
        ensures
            final(self).wf(),
            final(self).finished_spec(),
            final(self).resolved_spec() == old(self).resolved_spec(),
            final(self).alternate_spec() == old(self).alternate_spec(),
            old(self).finished_spec() ==> *final(self) == *old(self) && r is Ok,
            !old(self).finished_spec() ==> {
                &&& (r is Ok <==> old(self).sink_spec().complete_ok_spec())
                &&& (r is Ok ==> final(self).sink_spec().out_spec() == old(
                    self,
                ).sink_spec().out_spec() + group_text(
                    GroupKind::Sequence,
                    old(self).sink_spec().entries_spec(),
                    old(self).alternate_spec(),
                ))
            },
    {
        if self.done {
            Ok(())
        } else {
            self.done = true;
            self.sink.complete()
        }
    }

    /// Returns the ambient prettiness flag read from the sink when this
    /// builder was created.
    pub fn alternate(&self) -> (b: bool)
        requires
            self.wf(),
        ensures
            b == self.alternate_spec(),
    {
        self.inherited
    }

    /// Releases the sink this builder held exclusively.
    pub fn into_sink(self) -> (s: S)
        ensures
            s == self.sink_spec(),
    {
        self.sink
    }
}

/// Performs the whole list output routine over a slice of items, from the
/// creation of a [`ListShow`] to finishing, inheriting the sink's ambient
/// mode.
pub fn display_list<S: Sink, V: Render>(f: S, items: &[V]) -> (r: (Result<(), WriteFailure>, S))
    requires
        f.wf(),
        f.open_spec() is None,
    ensures
        r.1.wf(),
        r.1.open_spec() is None,
        r.1.alternate_spec() == f.alternate_spec(),
        (forall|s: S| #[trigger] s.complete_ok_spec()) ==> r.0 is Ok,
        r.0 is Ok ==> r.1.out_spec() == f.out_spec() + group_text(
            GroupKind::Sequence,
            items_text(items@, f.alternate_spec()),
            f.alternate_spec(),
        ),
{
    let mut show = ListShow::new(f, Alternate::Inherit);
    show.items(items);
    let outcome = show.finish();
    (outcome, show.into_sink())
}

/// Performs the whole list output routine over a revisitable source of
/// items, from the creation of a [`ListShow`] to finishing, inheriting
/// the sink's ambient mode.
pub fn display_list_from_iter<S: Sink, KK: Kind, I: Iterable<KK>>(f: S, items: &I) -> (r: (
    Result<(), WriteFailure>,
    S,
)) where I::Item: Render
    requires
        f.wf(),
        f.open_spec() is None,
    ensures
        r.1.wf(),
        r.1.open_spec() is None,
        r.1.alternate_spec() == f.alternate_spec(),
        (forall|s: S| #[trigger] s.complete_ok_spec()) ==> r.0 is Ok,
        r.0 is Ok ==> r.1.out_spec() == f.out_spec() + group_text(
            GroupKind::Sequence,
            items_text(items.seq_spec(), f.alternate_spec()),
            f.alternate_spec(),
        ),
{
    let mut show = ListShow::new(f, Alternate::Inherit);
    show.items_from_iter(items);
    let outcome = show.finish();
    (outcome, show.into_sink())
}

} // verus!
