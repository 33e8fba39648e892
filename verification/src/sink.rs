//! The grouped-write protocol behind every builder: a sink accepts a
//! `begin_group` / `append_entry` / `complete` sequence and owns the whole
//! textual framing (braces or brackets, separators, newlines and the
//! indentation of nested blocks). Appends are fire-and-forget; a write
//! problem surfaces only as the result of `complete`.

use vstd::prelude::*;
use vstd::string::StrSliceExecFns;
use vstd::string::StringExecFns;

verus! {

/// The two shapes of grouped output: key-labelled aggregates in braces and
/// ordered sequences in brackets.
#[derive(Clone, Copy, Debug, PartialEq, Eq, Structural)]
pub enum GroupKind {
    /// A set-like group rendered between `{` and `}`.
    Aggregate,
    /// An ordered group rendered between `[` and `]`.
    Sequence,
}

/// The single error kind: the underlying sink failed to accept or flush
/// output.
#[derive(Clone, Copy, Debug, PartialEq, Eq, Structural)]
pub struct WriteFailure;

/// The opening delimiter of a group.
pub open spec fn open_text(kind: GroupKind) -> Seq<char> {
    match kind {
        GroupKind::Aggregate => "{"@,
        GroupKind::Sequence => "["@,
    }
}

/// The closing delimiter of a group.
pub open spec fn close_text(kind: GroupKind) -> Seq<char> {
    match kind {
        GroupKind::Aggregate => "}"@,
        GroupKind::Sequence => "]"@,
    }
}

/// The index of the last newline of `e`, or `-1` when `e` has none.
pub open spec fn last_newline(e: Seq<char>) -> int
    decreases e.len(),
{
    if e.len() == 0 {
        -1
    } else if e[e.len() - 1] == '\n' {
        e.len() - 1
    } else {
        last_newline(e.take(e.len() - 1))
    }
}

/// The first `i` characters of `e`, with the indentation unit inserted
/// after every newline whose index is below `last`.
pub open spec fn pad_upto(e: Seq<char>, i: int, last: int) -> Seq<char>
    decreases i,
{
    if i <= 0 {
        Seq::empty()
    } else {
        pad_upto(e, i - 1, last) + seq![e[i - 1]] + (if e[i - 1] == '\n' && i - 1 < last {
            "    "@
        } else {
            Seq::empty()
        })
    }
}

/// An entry as it stands inside a prettified group: every line between the
/// first and the last is indented by one unit, so a nested block keeps its
/// own closing delimiter flush with the entry that opened it.
pub open spec fn pad_interior(e: Seq<char>) -> Seq<char> {
    pad_upto(e, e.len() as int, last_newline(e))
}

/// What one entry contributes to a group's text. In one-line form entries
/// are separated by `", "`; in pretty form every entry ends in `",\n"` and
/// the first is preceded by the newline that opens the block.
pub open spec fn entry_piece(e: Seq<char>, first: bool, pretty: bool) -> Seq<char> {
    if pretty {
        (if first {
            "\n"@
        } else {
            Seq::empty()
        }) + pad_interior(e) + ",\n"@
    } else {
        (if first {
            Seq::empty()
        } else {
            ", "@
        }) + e
    }
}

/// The text of a group's entries, in order, without its delimiters.
pub open spec fn partial_group(entries: Seq<Seq<char>>, pretty: bool) -> Seq<char>
    decreases entries.len(),
{
    if entries.len() == 0 {
        Seq::empty()
    } else {
        partial_group(entries.drop_last(), pretty) + entry_piece(
            entries.last(),
            entries.len() == 1,
            pretty,
        )
    }
}

/// The complete text of one group.
pub open spec fn group_text(kind: GroupKind, entries: Seq<Seq<char>>, pretty: bool) -> Seq<char> {
    open_text(kind) + partial_group(entries, pretty) + close_text(kind)
}

/// The grouped-write capability that builders render into. A sink carries
/// an ambient prettiness flag, fixed over its lifetime, and at most one
/// open group at a time; `complete` alone can fail.
pub trait Sink: Sized {
    /// Validity of the sink's internal state. An implementation that
    /// leaves the spec functions unspecified promises nothing of itself.
    open spec fn wf(&self) -> bool {
        arbitrary()
    }

    /// The ambient prettiness flag.
    open spec fn alternate_spec(&self) -> bool {
        arbitrary()
    }

    /// The committed output: everything written by completed groups.
    open spec fn out_spec(&self) -> Seq<char> {
        arbitrary()
    }

    /// The kind of the open group, if one is open.
    open spec fn open_spec(&self) -> Option<GroupKind> {
        arbitrary()
    }

    /// The entries appended to the open group so far, in order.
    open spec fn entries_spec(&self) -> Seq<Seq<char>> {
        arbitrary()
    }

    /// Whether completing the open group would succeed now.
    open spec fn complete_ok_spec(&self) -> bool {
        arbitrary()
    }

    /// Reads the ambient prettiness flag.
    fn alternate(&self) -> (b: bool)
        requires
            self.wf(),
        ensures
            b == self.alternate_spec(),
    ;

    /// Opens a group of the given kind.
    fn begin_group(&mut self, kind: GroupKind)
        requires
            old(self).wf(),
            old(self).open_spec() is None,
        ensures
            final(self).wf(),
            final(self).open_spec() == Some(kind),
            final(self).entries_spec() == Seq::<Seq<char>>::empty(),
            final(self).out_spec() == old(self).out_spec(),
            final(self).alternate_spec() == old(self).alternate_spec(),
    ;

    /// Appends one already-rendered entry to the open group. This call
    /// cannot fail from the caller's perspective; a write problem is
    /// deferred to `complete`.
    fn append_entry(&mut self, text: &str)
        requires
            old(self).wf(),
            old(self).open_spec() is Some,
        ensures
            final(self).wf(),
            final(self).open_spec() == old(self).open_spec(),
            final(self).entries_spec() == old(self).entries_spec().push(text@),
            final(self).out_spec() == old(self).out_spec(),
            final(self).alternate_spec() == old(self).alternate_spec(),
    ;

    /// Closes the open group, committing its text, and reports whether the
    /// sink accepted all of the group's output.
    fn complete(&mut self) -> (r: Result<(), WriteFailure>)
        requires
            old(self).wf(),
            old(self).open_spec() is Some,
        ensures
            final(self).wf(),
            final(self).open_spec() is None,
            final(self).entries_spec() == Seq::<Seq<char>>::empty(),
            final(self).alternate_spec() == old(self).alternate_spec(),
            r is Ok <==> old(self).complete_ok_spec(),
            r is Ok ==> final(self).out_spec() == old(self).out_spec() + group_text(
                old(self).open_spec()->0,
                old(self).entries_spec(),
                old(self).alternate_spec(),
            ),
    ;
}

/// A sink that renders groups into an owned `String`. Its writes cannot
/// fail, so `complete` always succeeds.
pub struct StringSink {
    out: String,
    ambient: bool,
    open: Option<GroupKind>,
    started: bool,
    base: Ghost<Seq<char>>,
    entries: Ghost<Seq<Seq<char>>>,
}

impl StringSink {
    /// Creates an empty sink carrying the given ambient prettiness flag.
    pub fn new(alternate: bool) -> (s: Self)
        ensures
            s.wf(),
            s.alternate_spec() == alternate,
            s.out_spec() == Seq::<char>::empty(),
            s.open_spec() is None,
    {
        StringSink {
            out: String::new(),
            ambient: alternate,
            open: None,
            started: false,
            base: Ghost(Seq::empty()),
            entries: Ghost(Seq::empty()),
        }
    }

    /// Hands the accumulated text out.
    pub fn into_string(self) -> (s: String)
        requires
            self.wf(),
            self.open_spec() is None,
        ensures
            s@ == self.out_spec(),
    {
        self.out
    }
}

impl Sink for StringSink {
    closed spec fn wf(&self) -> bool {
        match self.open {
            None => self.out@ == self.base@,
            Some(kind) => self.out@ == self.base@ + open_text(kind) + partial_group(
                self.entries@,
                self.ambient,
            ) && self.started == (self.entries@.len() > 0),
        }
    }

    closed spec fn alternate_spec(&self) -> bool {
        self.ambient
    }

    closed spec fn out_spec(&self) -> Seq<char> {
        self.base@
    }

    closed spec fn open_spec(&self) -> Option<GroupKind> {
        self.open
    }

    closed spec fn entries_spec(&self) -> Seq<Seq<char>> {
        self.entries@
    }

    open spec fn complete_ok_spec(&self) -> bool {
        true
    }

    fn alternate(&self) -> (b: bool) {
        self.ambient
    }

    fn begin_group(&mut self, kind: GroupKind) {
        match kind {
            GroupKind::Aggregate => self.out.append("{"),
            GroupKind::Sequence => self.out.append("["),
        }
        self.open = Some(kind);
        self.started = false;
        self.entries = Ghost(Seq::empty());
        proof {
            assert(partial_group(Seq::<Seq<char>>::empty(), self.ambient) =~= Seq::<char>::empty());
            assert(self.out@ =~= self.base@ + open_text(kind) + partial_group(
                self.entries@,
                self.ambient,
            ));
        }
    }

    fn append_entry(&mut self, text: &str) {
        let ghost old_entries = self.entries@;
        if self.ambient {
            if !self.started {
                self.out.append("\n");
            }
            let padded = pad_text(text);
            self.out.append(padded.as_str());
            self.out.append(",\n");
        } else {
            if self.started {
                self.out.append(", ");
            }
            self.out.append(text);
        }
        self.started = true;
        self.entries = Ghost(old_entries.push(text@));
        proof {
            let kind = self.open->0;
            assert(old_entries.push(text@).drop_last() =~= old_entries);
            assert(partial_group(old_entries.push(text@), self.ambient) == partial_group(
                old_entries,
                self.ambient,
            ) + entry_piece(text@, old_entries.len() == 0, self.ambient));
            assert(self.out@ =~= self.base@ + open_text(kind) + partial_group(
                self.entries@,
                self.ambient,
            ));
        }
    }

    fn complete(&mut self) -> (r: Result<(), WriteFailure>) {
        match self.open {
            Some(GroupKind::Aggregate) => self.out.append("}"),
            Some(GroupKind::Sequence) => self.out.append("]"),
            None => proof {
                assert(false);
            },
        }
        proof {
            assert(self.out@ =~= self.base@ + group_text(
                self.open->0,
                self.entries@,
                self.ambient,
            ));
        }
        self.open = None;
        self.started = false;
        self.base = Ghost(self.out@);
        self.entries = Ghost(Seq::empty());
        Ok(())
    }
}

/// The index of the last newline of `s`, if `s` has one.
fn find_last_newline(s: &str) -> (r: Option<usize>)
    ensures
        match r {
            Some(i) => last_newline(s@) == i,
            None => last_newline(s@) == -1,
        },
{
    let n = s.unicode_len();
    let mut j = n;
    proof {
        assert(s@.take(n as int) =~= s@);
    }
    while j > 0
        invariant
            j <= n,
            n == s@.len(),
            last_newline(s@) == last_newline(s@.take(j as int)),
        decreases j,
    {
        let c = s.get_char(j - 1);
        if c == '\n' {
            proof {
                assert(s@.take(j as int)[j - 1] == '\n');
            }
            return Some(j - 1);
        }
        proof {
            assert(s@.take(j as int)[j - 1] != '\n');
            assert(s@.take(j as int).take(j - 1) =~= s@.take(j - 1));
        }
        j = j - 1;
    }
    proof {
        assert(s@.take(0) =~= Seq::<char>::empty());
    }
    None
}

proof fn lemma_newline_below_last(e: Seq<char>, i: int)
    requires
        0 <= i < e.len(),
        e[i] == '\n',
    ensures
        last_newline(e) >= i,
    decreases e.len(),
{
    if e[e.len() - 1] != '\n' {
        assert(i < e.len() - 1);
        lemma_newline_below_last(e.take(e.len() - 1), i);
    }
}

/// Indents the interior lines of one already-rendered entry.
fn pad_text(s: &str) -> (r: String)
    ensures
        r@ == pad_interior(s@),
{
    let last = find_last_newline(s);
    let n = s.unicode_len();
    let ghost lastpos = last_newline(s@);
    let mut out = String::new();
    let mut i: usize = 0;
    while i < n
        invariant
            i <= n,
            n == s@.len(),
            lastpos == last_newline(s@),
            match last {
                Some(l) => lastpos == l,
                None => lastpos == -1,
            },
            out@ == pad_upto(s@, i as int, lastpos),
        decreases n - i,
    {
        let c = s.get_char(i);
        out.push(c);
        if c == '\n' {
            let below_last = match last {
                Some(l) => i < l,
                None => false,
            };
            proof {
                if !below_last {
                    assert(!(i < lastpos));
                } else {
                    lemma_newline_below_last(s@, i as int);
                }
            }
            if below_last {
                out.append("    ");
            } else {
                proof {
                    assert(out@ =~= pad_upto(s@, i as int, lastpos) + seq![s@[i as int]]
                        + Seq::<char>::empty());
                }
            }
        } else {
            proof {
                assert(out@ =~= pad_upto(s@, i as int, lastpos) + seq![s@[i as int]]
                    + Seq::<char>::empty());
            }
        }
        i = i + 1;
    }
    out
}

} // verus!
