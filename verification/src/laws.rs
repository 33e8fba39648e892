//! Laws of the grouped framing: what one-line and prettified group text
//! guarantee for any sequence of entries.

use crate::sink::GroupKind;
use crate::sink::close_text;
use crate::sink::entry_piece;
use crate::sink::group_text;
use crate::sink::last_newline;
use crate::sink::open_text;
use crate::sink::pad_interior;
use crate::sink::pad_upto;
use crate::sink::partial_group;
use vstd::prelude::*;

verus! {

/// No character of `s` is a newline.
pub open spec fn newline_free(s: Seq<char>) -> bool {
    forall|i: int| 0 <= i < s.len() ==> s[i] != '\n'
}

proof fn lemma_concat_newline_free(a: Seq<char>, b: Seq<char>)
    requires
        newline_free(a),
        newline_free(b),
    ensures
        newline_free(a + b),
{
    assert forall|i: int| 0 <= i < (a + b).len() implies (a + b)[i] != '\n' by {
        if i < a.len() {
            assert((a + b)[i] == a[i]);
        } else {
            assert((a + b)[i] == b[i - a.len()]);
        }
    }
}

proof fn lemma_delimiters_newline_free(kind: GroupKind)
    ensures
        newline_free(open_text(kind)),
        newline_free(close_text(kind)),
        newline_free(", "@),
{
    reveal_strlit("{");
    reveal_strlit("[");
    reveal_strlit("}");
    reveal_strlit("]");
    reveal_strlit(", ");
}

proof fn lemma_partial_one_line_newline_free(entries: Seq<Seq<char>>)
    requires
        forall|i: int| 0 <= i < entries.len() ==> newline_free(#[trigger] entries[i]),
    ensures
        newline_free(partial_group(entries, false)),
    decreases entries.len(),
{
    if entries.len() > 0 {
        assert forall|i: int| 0 <= i < entries.drop_last().len() implies newline_free(
            #[trigger] entries.drop_last()[i],
        ) by {
            assert(entries.drop_last()[i] == entries[i]);
        }
        lemma_partial_one_line_newline_free(entries.drop_last());
        lemma_delimiters_newline_free(GroupKind::Aggregate);
        let lead: Seq<char> = if entries.len() == 1 {
            Seq::empty()
        } else {
            ", "@
        };
        lemma_concat_newline_free(lead, entries.last());
        lemma_concat_newline_free(
            partial_group(entries.drop_last(), false),
            entry_piece(entries.last(), entries.len() == 1, false),
        );
    }
}

/// One-line rendering adds no newlines and no indentation: for any
/// sequence of entries each free of newlines, the whole one-line group
/// text is free of newlines.
pub proof fn lemma_one_line_adds_no_newline(kind: GroupKind, entries: Seq<Seq<char>>)
    requires
        forall|i: int| 0 <= i < entries.len() ==> newline_free(#[trigger] entries[i]),
    ensures
        newline_free(group_text(kind, entries, false)),
{
    lemma_delimiters_newline_free(kind);
    lemma_partial_one_line_newline_free(entries);
    lemma_concat_newline_free(open_text(kind), partial_group(entries, false));
    lemma_concat_newline_free(
        open_text(kind) + partial_group(entries, false),
        close_text(kind),
    );
}

proof fn lemma_pad_upto_newline_free(e: Seq<char>, i: int, last: int)
    requires
        newline_free(e),
        0 <= i <= e.len(),
    ensures
        pad_upto(e, i, last) == e.take(i),
    decreases i,
{
    if i > 0 {
        lemma_pad_upto_newline_free(e, i - 1, last);
        assert(e.take(i - 1) + seq![e[i - 1]] + Seq::<char>::empty() =~= e.take(i));
    } else {
        assert(pad_upto(e, 0, last) =~= e.take(0));
    }
}

/// Padding a newline-free entry leaves it unchanged: indentation is only
/// ever inserted inside multi-line entries.
pub proof fn lemma_pad_interior_single_line(e: Seq<char>)
    requires
        newline_free(e),
    ensures
        pad_interior(e) == e,
{
    lemma_pad_upto_newline_free(e, e.len() as int, last_newline(e));
    assert(e.take(e.len() as int) =~= e);
}

/// One prettified line per entry: the entry's text followed by the
/// separator `",\n"`, for every entry including the last.
pub open spec fn lines_concat(entries: Seq<Seq<char>>) -> Seq<char>
    decreases entries.len(),
{
    if entries.len() == 0 {
        Seq::empty()
    } else {
        lines_concat(entries.drop_last()) + entries.last() + ",\n"@
    }
}

proof fn lemma_partial_pretty_lines(entries: Seq<Seq<char>>)
    requires
        entries.len() > 0,
        forall|i: int| 0 <= i < entries.len() ==> newline_free(#[trigger] entries[i]),
    ensures
        partial_group(entries, true) == "\n"@ + lines_concat(entries),
    decreases entries.len(),
{
    reveal_strlit("\n");
    reveal_strlit(",\n");
    lemma_pad_interior_single_line(entries.last());
    if entries.len() == 1 {
        assert(entries.drop_last().len() == 0);
        assert(partial_group(entries.drop_last(), true) == Seq::<char>::empty());
        assert(lines_concat(entries.drop_last()) == Seq::<char>::empty());
        assert(partial_group(entries, true) =~= "\n"@ + lines_concat(entries));
    } else {
        assert forall|i: int| 0 <= i < entries.drop_last().len() implies newline_free(
            #[trigger] entries.drop_last()[i],
        ) by {
            assert(entries.drop_last()[i] == entries[i]);
        }
        lemma_partial_pretty_lines(entries.drop_last());
        assert(partial_group(entries, true) =~= "\n"@ + lines_concat(entries));
    }
}

/// Prettified rendering produces one logical entry per line with a
/// trailing separator on every entry including the last: for entries each
/// free of newlines, the pretty group text is exactly the opening
/// delimiter, a newline, every entry followed by `",\n"` in order, and
/// the closing delimiter.
pub proof fn lemma_pretty_entry_per_line(kind: GroupKind, entries: Seq<Seq<char>>)
    requires
        entries.len() > 0,
        forall|i: int| 0 <= i < entries.len() ==> newline_free(#[trigger] entries[i]),
    ensures
        group_text(kind, entries, true) == open_text(kind) + "\n"@ + lines_concat(entries)
            + close_text(kind),
{
    lemma_partial_pretty_lines(entries);
    assert(group_text(kind, entries, true) =~= open_text(kind) + "\n"@ + lines_concat(entries)
        + close_text(kind));
}

} // verus!
