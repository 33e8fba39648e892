//! The aggregate builder: accumulates named `key: value` entries into a
//! set-like grouped output. The effective output mode is resolved once at
//! construction and frozen; a per-entry override resolves independently
//! for that one entry. After `finish` every accumulation call is a no-op.

use crate::Alternate;
use crate::instant::Iterable;
use crate::instant::Kind;
use crate::pair::DisplayPair;
use crate::render::Render;
use crate::resolve_spec;
use crate::sink::GroupKind;
use crate::sink::Sink;
use crate::sink::WriteFailure;
use crate::sink::group_text;
use vstd::prelude::*;
use vstd::string::StringExecFns;

verus! {

/// The text of one aggregate entry: the key in its one-line form, a colon
/// separator, then the value rendered under the entry's effective mode.
pub open spec fn field_text<K: Render, V: Render>(key: K, val: V, mode: bool) -> Seq<char> {
    key.render_spec(false) + ": "@ + val.render_spec(mode)
}

/// The texts of a batch of aggregate entries, in order.
pub open spec fn fields_text<K: Render, V: Render>(fields: Seq<(K, V)>, mode: bool) -> Seq<
    Seq<char>,
> {
    fields.map_values(|p: (K, V)| field_text(p.0, p.1, mode))
}

/// The texts of a batch of displayable pairs, in order.
pub open spec fn pairs_text<P: DisplayPair>(pairs: Seq<P>, mode: bool) -> Seq<Seq<char>> {
    pairs.map_values(|p: P| field_text(p.left_spec(), p.right_spec(), mode))
}

/// Outputs a structure as a brace-framed group of `key: value` entries,
/// honouring the propagated output mode.
pub struct StructShow<S: Sink> {
    sink: S,
    mode: bool,
    inherited: bool,
    done: bool,
}

impl<S: Sink> StructShow<S> {
    /// The sink this builder owns.
    pub closed spec fn sink_spec(&self) -> S {
        self.sink
    }

    /// The frozen effective mode entries are rendered under.
    pub closed spec fn resolved_spec(&self) -> bool {
        self.mode
    }

    /// The ambient prettiness flag read from the sink at construction.
    pub closed spec fn alternate_spec(&self) -> bool {
        self.inherited
    }

    /// Whether `finish` has been called.
    pub closed spec fn finished_spec(&self) -> bool {
        self.done
    }

    /// Validity of the builder: its sink is valid, carries the flag the
    /// builder froze, and holds an open aggregate group for exactly as
    /// long as the builder is unfinished.
    pub open spec fn wf(&self) -> bool {
        &&& self.sink_spec().wf()
        &&& self.alternate_spec() == self.sink_spec().alternate_spec()
        &&& if self.finished_spec() {
            self.sink_spec().open_spec() is None
        } else {
            self.sink_spec().open_spec() == Some(GroupKind::Aggregate)
        }
    }

    /// Creates one [`StructShow`], resolving and freezing the effective
    /// mode from the requested one and the sink's ambient flag, and begins
    /// a grouped write on the sink.
    pub fn new(sink: S, alternate: Alternate) -> (s: Self)
        requires
            sink.wf(),
            sink.open_spec() is None,
        ensures
            s.wf(),
            !s.finished_spec(),
            s.alternate_spec() == sink.alternate_spec(),
            s.resolved_spec() == resolve_spec(alternate, sink.alternate_spec()),
            s.sink_spec().out_spec() == sink.out_spec(),
            s.sink_spec().entries_spec() == Seq::<Seq<char>>::empty(),
    {
        let mut sink = sink;
        let inherited = sink.alternate();
        let mode = alternate.resolve(inherited);
        sink.begin_group(GroupKind::Aggregate);
        StructShow { sink, mode, inherited, done: false }
    }

    /// Creates one [`StructShow`] with the [`Alternate::Inherit`] setting.
    pub fn inherit(sink: S) -> (s: Self)
        requires
            sink.wf(),
            sink.open_spec() is None,
        ensures
            s.wf(),
            !s.finished_spec(),
            s.alternate_spec() == sink.alternate_spec(),
            s.resolved_spec() == sink.alternate_spec(),
            s.sink_spec().out_spec() == sink.out_spec(),
            s.sink_spec().entries_spec() == Seq::<Seq<char>>::empty(),
    {
        Self::new(sink, Alternate::Inherit)
    }

    fn append_field<K: Render, V: Render>(&mut self, key: &K, val: &V, mode: bool)
        requires
            old(self).wf(),
        ensures
            final(self).wf(),
            final(self).resolved_spec() == old(self).resolved_spec(),
            final(self).alternate_spec() == old(self).alternate_spec(),
            final(self).finished_spec() == old(self).finished_spec(),
            final(self).sink_spec().out_spec() == old(self).sink_spec().out_spec(),
            old(self).finished_spec() ==> *final(self) == *old(self),
            !old(self).finished_spec() ==> final(self).sink_spec().entries_spec() == old(
                self,
            ).sink_spec().entries_spec().push(field_text(*key, *val, mode)),
    {
        if !self.done {
            let mut text = key.render(false);
            text.append(": ");
            let rendered = val.render(mode);
            text.append(rendered.as_str());
            self.sink.append_entry(text.as_str());
        }
    }

    /// Adds one key-value pair to the struct output; a no-op once the
    /// builder is finished. The key is always rendered one-line; the value
    /// is rendered under the builder's resolved mode.
    pub fn field<K: Render, V: Render>(&mut self, key: &K, val: &V)
        requires
            old(self).wf(),
        ensures
            final(self).wf(),
            final(self).resolved_spec() == old(self).resolved_spec(),
            final(self).alternate_spec() == old(self).alternate_spec(),
            final(self).finished_spec() == old(self).finished_spec(),
            final(self).sink_spec().out_spec() == old(self).sink_spec().out_spec(),
            old(self).finished_spec() ==> *final(self) == *old(self),
            !old(self).finished_spec() ==> final(self).sink_spec().entries_spec() == old(
                self,
            ).sink_spec().entries_spec().push(
                field_text(*key, *val, old(self).resolved_spec()),
            ),
    {
        let mode = self.mode;
        self.append_field(key, val, mode);
    }

    /// Adds one key-value pair whose value is rendered under an
    /// independently resolved mode, for this entry only; the builder's own
    /// resolved mode is left untouched. A no-op once finished.
    pub fn field_override<K: Render, V: Render>(&mut self, key: &K, val: &V, alternate: Alternate)
        requires
            old(self).wf(),
        ensures
            final(self).wf(),
            final(self).resolved_spec() == old(self).resolved_spec(),
            final(self).alternate_spec() == old(self).alternate_spec(),
            final(self).finished_spec() == old(self).finished_spec(),
            final(self).sink_spec().out_spec() == old(self).sink_spec().out_spec(),
            old(self).finished_spec() ==> *final(self) == *old(self),
            !old(self).finished_spec() ==> final(self).sink_spec().entries_spec() == old(
                self,
            ).sink_spec().entries_spec().push(
                field_text(*key, *val, resolve_spec(alternate, old(self).alternate_spec())),
            ),
    {
        let mode = alternate.resolve(self.inherited);
        self.append_field(key, val, mode);
    }

    /// Adds one optional key-value pair if the value is present; emits
    /// nothing otherwise. A no-op once finished.
    pub fn field_opt<K: Render, V: Render>(&mut self, key: &K, val: &Option<V>)
        requires
            old(self).wf(),
        ensures
            final(self).wf(),
            final(self).resolved_spec() == old(self).resolved_spec(),
            final(self).alternate_spec() == old(self).alternate_spec(),
            final(self).finished_spec() == old(self).finished_spec(),
            final(self).sink_spec().out_spec() == old(self).sink_spec().out_spec(),
            old(self).finished_spec() || val is None ==> *final(self) == *old(self),
            !old(self).finished_spec() && val is Some ==> final(self).sink_spec().entries_spec()
                == old(self).sink_spec().entries_spec().push(
                field_text(*key, val->0, old(self).resolved_spec()),
            ),
    {
        match val {
            Some(actual) => self.field(key, actual),
            None => (),
        }
    }

    /// Adds one optional key-value pair under an independently resolved
    /// mode if the value is present. A no-op once finished.
    pub fn field_opt_override<K: Render, V: Render>(
        &mut self,
        key: &K,
        val: &Option<V>,
        alternate: Alternate,
    )
        requires
            old(self).wf(),
        ensures
            final(self).wf(),
            final(self).resolved_spec() == old(self).resolved_spec(),
            final(self).alternate_spec() == old(self).alternate_spec(),
            final(self).finished_spec() == old(self).finished_spec(),
            final(self).sink_spec().out_spec() == old(self).sink_spec().out_spec(),
            old(self).finished_spec() || val is None ==> *final(self) == *old(self),
            !old(self).finished_spec() && val is Some ==> final(self).sink_spec().entries_spec()
                == old(self).sink_spec().entries_spec().push(
                field_text(*key, val->0, resolve_spec(alternate, old(self).alternate_spec())),
            ),
    {
        match val {
            Some(actual) => self.field_override(key, actual, alternate),
            None => (),
        }
    }

    /// Adds several key-value pairs from a slice, in order.
    pub fn fields<K: Render, V: Render>(&mut self, fields: &[(K, V)])
        requires
            old(self).wf(),
        ensures
            final(self).wf(),
            final(self).resolved_spec() == old(self).resolved_spec(),
            final(self).alternate_spec() == old(self).alternate_spec(),
            final(self).finished_spec() == old(self).finished_spec(),
            final(self).sink_spec().out_spec() == old(self).sink_spec().out_spec(),
            old(self).finished_spec() ==> *final(self) == *old(self),
            !old(self).finished_spec() ==> final(self).sink_spec().entries_spec() == old(
                self,
            ).sink_spec().entries_spec() + fields_text(fields@, old(self).resolved_spec()),
    {
        if self.done {
            return ;
        }
        let ghost m = self.mode;
        let ghost base = self.sink.entries_spec();
        let mut i: usize = 0;
        while i < fields.len()
            invariant
                i <= fields@.len(),
                self.wf(),
                !self.finished_spec(),
                !old(self).finished_spec(),
                self.resolved_spec() == old(self).resolved_spec(),
                self.alternate_spec() == old(self).alternate_spec(),
                self.sink_spec().out_spec() == old(self).sink_spec().out_spec(),
                m == old(self).resolved_spec(),
                base == old(self).sink_spec().entries_spec(),
                self.sink_spec().entries_spec() == base + fields_text(
                    fields@.take(i as int),
                    m,
                ),
            decreases fields@.len() - i,
        {
            let pair = &fields[i];
            self.field(&pair.0, &pair.1);
            proof {
                assert(fields_text(fields@.take(i + 1), m) =~= fields_text(
                    fields@.take(i as int),
                    m,
                ).push(field_text(fields@[i as int].0, fields@[i as int].1, m)));
            }
            i = i + 1;
        }
        proof {
            assert(fields@.take(fields@.len() as int) =~= fields@);
        }
    }

    /// Adds several key-value pairs from a revisitable source of
    /// displayable pairs, in iteration order.
    pub fn fields_from_iter<KK: Kind, I: Iterable<KK>>(&mut self, fields: &I) where
        I::Item: DisplayPair,

        requires
            old(self).wf(),
        ensures
            final(self).wf(),
            final(self).resolved_spec() == old(self).resolved_spec(),
            final(self).alternate_spec() == old(self).alternate_spec(),
            final(self).finished_spec() == old(self).finished_spec(),
            final(self).sink_spec().out_spec() == old(self).sink_spec().out_spec(),
            old(self).finished_spec() ==> *final(self) == *old(self),
            !old(self).finished_spec() ==> final(self).sink_spec().entries_spec() == old(
                self,
            ).sink_spec().entries_spec() + pairs_text(
                fields.seq_spec(),
                old(self).resolved_spec(),
            ),
    {
        if self.done {
            return ;
        }
        let items = fields.iter();
        let ghost m = self.mode;
        let ghost base = self.sink.entries_spec();
        let mut i: usize = 0;
        while i < items.len()
            invariant
                i <= items@.len(),
                items@ == fields.seq_spec(),
                self.wf(),
                !self.finished_spec(),
                !old(self).finished_spec(),
                self.resolved_spec() == old(self).resolved_spec(),
                self.alternate_spec() == old(self).alternate_spec(),
                self.sink_spec().out_spec() == old(self).sink_spec().out_spec(),
                m == old(self).resolved_spec(),
                base == old(self).sink_spec().entries_spec(),
                self.sink_spec().entries_spec() == base + pairs_text(
                    items@.take(i as int),
                    m,
                ),
            decreases items@.len() - i,
        {
            let pair = &items[i];
            let key = pair.left();
            let val = pair.rifgt();
            self.field(key, val);
            proof {
                assert(pairs_text(items@.take(i + 1), m) =~= pairs_text(
                    items@.take(i as int),
                    m,
                ).push(
                    field_text(items@[i as int].left_spec(), items@[i as int].right_spec(), m),
                ));
            }
            i = i + 1;
        }
        proof {
            assert(items@.take(items@.len() as int) =~= items@);
        }
    }

    /// Finishes the struct output: transitions the builder to its finished
    /// state and delegates to the sink's completion, returning its result.
    /// A second call changes nothing and reports success.
    pub fn finish(&mut self) -> (r: Result<(), WriteFailure>)
        requires
            old(self).wf(),
        ensures
            final(self).wf(),
            final(self).finished_spec(),
            final(self).resolved_spec() == old(self).resolved_spec(),
            final(self).alternate_spec() == old(self).alternate_spec(),
            old(self).finished_spec() ==> *final(self) == *old(self) && r is Ok,
            !old(self).finished_spec() ==> {
                &&& (r is Ok <==> old(self).sink_spec().complete_ok_spec())
                &&& (r is Ok ==> final(self).sink_spec().out_spec() == old(
                    self,
                ).sink_spec().out_spec() + group_text(
                    GroupKind::Aggregate,
                    old(self).sink_spec().entries_spec(),
                    old(self).alternate_spec(),
                ))
            },
    {
        if self.done {
            Ok(())
        } else {
            self.done = true;
            self.sink.complete()
        }
    }

    /// Returns the ambient prettiness flag read from the sink when this
    /// builder was created.
    pub fn alternate(&self) -> (b: bool)
        requires
            self.wf(),
        ensures
            b == self.alternate_spec(),
    {
        self.inherited
    }

    /// Releases the sink this builder held exclusively.
    pub fn into_sink(self) -> (s: S)
        ensures
            s == self.sink_spec(),
    {
        self.sink
    }
}

/// Performs the whole struct output routine over a slice of pairs, from
/// the creation of a [`StructShow`] to finishing, inheriting the sink's
/// ambient mode.
pub fn display_struct<S: Sink, K: Render, V: Render>(f: S, fields: &[(K, V)]) -> (r: (
    Result<(), WriteFailure>,
    S,
))
    requires
        f.wf(),
        f.open_spec() is None,
    ensures
        r.1.wf(),
        r.1.open_spec() is None,
        r.1.alternate_spec() == f.alternate_spec(),
        (forall|s: S| #[trigger] s.complete_ok_spec()) ==> r.0 is Ok,
        r.0 is Ok ==> r.1.out_spec() == f.out_spec() + group_text(
            GroupKind::Aggregate,
            fields_text(fields@, f.alternate_spec()),
            f.alternate_spec(),
        ),
{
    let mut show = StructShow::new(f, Alternate::Inherit);
    show.fields(fields);
    let outcome = show.finish();
    (outcome, show.into_sink())
}

/// Performs the whole struct output routine over a revisitable source of
/// displayable pairs, from the creation of a [`StructShow`] to finishing,
/// inheriting the sink's ambient mode.
pub fn display_struct_from_iter<S: Sink, KK: Kind, I: Iterable<KK>>(f: S, fields: &I) -> (r: (
    Result<(), WriteFailure>,
    S,
)) where I::Item: DisplayPair
    requires
        f.wf(),
        f.open_spec() is None,
    ensures
        r.1.wf(),
        r.1.open_spec() is None,
        r.1.alternate_spec() == f.alternate_spec(),
        (forall|s: S| #[trigger] s.complete_ok_spec()) ==> r.0 is Ok,
        r.0 is Ok ==> r.1.out_spec() == f.out_spec() + group_text(
            GroupKind::Aggregate,
            pairs_text(fields.seq_spec(), f.alternate_spec()),
            f.alternate_spec(),
        ),
{
    let mut show = StructShow::new(f, Alternate::Inherit);
    show.fields_from_iter(fields);
    let outcome = show.finish();
    (outcome, show.into_sink())
}

} // verus!
