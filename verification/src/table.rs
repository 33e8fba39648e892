//! The tabular renderer: given a fixed ordered set of column labels and a
//! sequence of rows, each row optionally missing some column values, it
//! measures per-column widths over labels and all present values, then
//! emits an aligned, ASCII-framed grid. A table with no rows renders as
//! the literal `[]`. Rendering accumulates into an owned string, which
//! cannot fail; handing the text to a fallible destination is the
//! caller's concern.

use crate::render::Render;
use vstd::prelude::*;
use vstd::string::StrSliceExecFns;
use vstd::string::StringExecFns;

verus! {

/// `n` spaces.
pub open spec fn spaces(n: int) -> Seq<char>
    decreases n,
{
    if n <= 0 {
        Seq::empty()
    } else {
        spaces(n - 1).push(' ')
    }
}

/// `n` dashes.
pub open spec fn dashes(n: int) -> Seq<char>
    decreases n,
{
    if n <= 0 {
        Seq::empty()
    } else {
        dashes(n - 1).push('-')
    }
}

/// `s` left-justified in a field of `width` characters: space-padded when
/// shorter, kept whole when longer.
pub open spec fn left_justified(s: Seq<char>, width: int) -> Seq<char> {
    if s.len() >= width {
        s
    } else {
        s + spaces(width - s.len())
    }
}

/// A struct to be displayed as a table row: a fixed list of column labels
/// shared by every row of the table, and a by-index lookup of the row's
/// optional values.
pub trait Row {
    /// The type the row's values render through.
    type Value: Render;

    /// The column labels, in display order. An implementation that
    /// leaves this unspecified promises nothing of its labels.
    open spec fn keys_spec() -> Seq<Seq<char>> {
        arbitrary()
    }

    /// The column labels as strings.
    fn keys() -> (v: Vec<String>)
        ensures
            v@.map_values(|s: String| s@) == Self::keys_spec(),
    ;

    /// The value at the given column index; `None` stands for a value
    /// that should not be displayed. An implementation that leaves this
    /// unspecified promises nothing of its values.
    open spec fn value_spec(&self, idx: int) -> Option<Self::Value> {
        arbitrary()
    }

    /// Returns the value by index of its column label.
    fn value(&self, idx: usize) -> (r: Option<Self::Value>)
        ensures
            r == self.value_spec(idx as int),
    ;
}

/// The rendered one-line width of a row's value in one column; a missing
/// value contributes nothing.
pub open spec fn value_width<R: Row>(row: R, i: int) -> int {
    match row.value_spec(i) {
        Some(v) => v.render_spec(false).len() as int,
        None => 0,
    }
}

/// The widest rendered value of column `i` over the given rows.
pub open spec fn rows_width<R: Row>(rows: Seq<R>, i: int) -> int
    decreases rows.len(),
{
    if rows.len() == 0 {
        0
    } else {
        let prev = rows_width(rows.drop_last(), i);
        let cur = value_width(rows.last(), i);
        if prev >= cur {
            prev
        } else {
            cur
        }
    }
}

/// The width of column `i`: the maximum of the label's length and every
/// present value's rendered character count in that column.
pub open spec fn column_width<R: Row>(rows: Seq<R>, i: int) -> int {
    let key = R::keys_spec()[i].len() as int;
    let vals = rows_width(rows, i);
    if key >= vals {
        key
    } else {
        vals
    }
}

/// All column widths of a table, in column order.
pub open spec fn widths_spec<R: Row>(rows: Seq<R>) -> Seq<int> {
    Seq::new(R::keys_spec().len(), |i: int| column_width(rows, i))
}

/// The first `n` cells of one row: each text left-justified to its
/// column's width, columns joined by `" | "`.
pub open spec fn row_cells(texts: Seq<Seq<char>>, widths: Seq<int>, n: int) -> Seq<char>
    decreases n,
{
    if n <= 0 {
        Seq::empty()
    } else if n == 1 {
        left_justified(texts[0], widths[0])
    } else {
        row_cells(texts, widths, n - 1) + " | "@ + left_justified(texts[n - 1], widths[n - 1])
    }
}

/// One emitted row: its joined cells terminated by a newline, or nothing
/// at all for a row of no cells.
pub open spec fn row_line(texts: Seq<Seq<char>>, widths: Seq<int>) -> Seq<char> {
    if texts.len() == 0 {
        Seq::empty()
    } else {
        row_cells(texts, widths, texts.len() as int) + "\n"@
    }
}

/// The first `n` columns of the separator: each column's dashes, joined
/// by `"-+-"`.
pub open spec fn separator_cells(widths: Seq<int>, n: int) -> Seq<char>
    decreases n,
{
    if n <= 0 {
        Seq::empty()
    } else if n == 1 {
        dashes(widths[0])
    } else {
        separator_cells(widths, n - 1) + "-+-"@ + dashes(widths[n - 1])
    }
}

/// The emitted separator line, or nothing at all when there are no
/// columns.
pub open spec fn separator_line(widths: Seq<int>) -> Seq<char> {
    if widths.len() == 0 {
        Seq::empty()
    } else {
        separator_cells(widths, widths.len() as int) + "\n"@
    }
}

/// The rendered one-line content of a row's cell in one column; empty for
/// a missing value.
pub open spec fn content_at<R: Row>(row: R, i: int) -> Seq<char> {
    match row.value_spec(i) {
        Some(v) => v.render_spec(false),
        None => Seq::empty(),
    }
}

/// The cell contents of one row, in column order.
pub open spec fn row_contents<R: Row>(row: R) -> Seq<Seq<char>> {
    Seq::new(R::keys_spec().len(), |i: int| content_at(row, i))
}

/// The emitted text of the first `k` data rows.
pub open spec fn data_text<R: Row>(rows: Seq<R>, widths: Seq<int>, k: int) -> Seq<char>
    decreases k,
{
    if k <= 0 {
        Seq::empty()
    } else {
        data_text(rows, widths, k - 1) + row_line(row_contents(rows[k - 1]), widths)
    }
}

/// The complete text of a table: `[]` for no rows; otherwise a leading
/// newline, the header row, the separator line, then every data row in
/// row order.
pub open spec fn table_text<R: Row>(rows: Seq<R>) -> Seq<char> {
    if rows.len() == 0 {
        "[]"@
    } else {
        let widths = widths_spec(rows);
        "\n"@ + row_line(R::keys_spec(), widths) + separator_line(widths) + data_text(
            rows,
            widths,
            rows.len() as int,
        )
    }
}

/// An ephemeral table cell: an optional renderable value and the computed
/// width of its column.
pub struct Cell<T> {
    /// The value, or `None` for a cell left blank.
    pub value: Option<T>,
    /// The column width the cell is padded to.
    pub width: usize,
}

/// The content of a cell before padding.
pub open spec fn cell_content<T: Render>(c: Cell<T>) -> Seq<char> {
    match c.value {
        Some(v) => v.render_spec(false),
        None => Seq::empty(),
    }
}

/// The text of a cell: its content left-justified to its width.
pub open spec fn cell_text<T: Render>(c: Cell<T>) -> Seq<char> {
    left_justified(cell_content(c), c.width as int)
}

impl<T> Cell<T> {
    /// Creates a cell over an optional value and its column width.
    pub fn new(value: Option<T>, width: usize) -> (r: Self)
        ensures
            r.value == value,
            r.width == width,
    {
        Cell { value, width }
    }
}

impl<T: Render> Render for Cell<T> {
    open spec fn render_spec(&self, alternate: bool) -> Seq<char> {
        cell_text(*self)
    }

    fn render(&self, alternate: bool) -> (r: String) {
        let mut s = match &self.value {
            Some(v) => v.render(false),
            None => String::new(),
        };
        let content_len = s.as_str().unicode_len();
        let mut k = content_len;
        proof {
            assert(s@ =~= cell_content(*self) + spaces(0));
        }
        while k < self.width
            invariant
                content_len == cell_content(*self).len(),
                content_len <= k,
                content_len >= self.width ==> k == content_len,
                content_len < self.width ==> k <= self.width,
                s@ == cell_content(*self) + spaces(k - content_len),
            decreases self.width - k,
        {
            s.push(' ');
            proof {
                assert(s@ =~= cell_content(*self) + spaces(k + 1 - content_len));
            }
            k = k + 1;
        }
        proof {
            assert(s@ =~= cell_text(*self));
        }
        s
    }
}

/// Emits one row of cells: each cell's text, columns joined by `" | "`,
/// terminated by a newline; empty for no cells.
pub fn row_fmt<T: Render>(cells: &[Cell<T>]) -> (r: String)
    ensures
        r@ == row_line(
            cells@.map_values(|c: Cell<T>| cell_content(c)),
            cells@.map_values(|c: Cell<T>| c.width as int),
        ),
{
    let ghost texts = cells@.map_values(|c: Cell<T>| cell_content(c));
    let ghost widths = cells@.map_values(|c: Cell<T>| c.width as int);
    if cells.len() == 0 {
        return String::new();
    }
    let mut out = cells[0].render(false);
    let mut i: usize = 1;
    while i < cells.len()
        invariant
            1 <= i <= cells@.len(),
            texts == cells@.map_values(|c: Cell<T>| cell_content(c)),
            widths == cells@.map_values(|c: Cell<T>| c.width as int),
            out@ == row_cells(texts, widths, i as int),
        decreases cells@.len() - i,
    {
        out.append(" | ");
        let rendered = cells[i].render(false);
        out.append(rendered.as_str());
        i = i + 1;
    }
    out.append("\n");
    out
}

/// Emits the separator line for the given column widths: each column's
/// dashes, joined by `"-+-"`, terminated by a newline; empty for no
/// columns.
pub fn line_fmt(sizes: &[usize]) -> (r: String)
    ensures
        r@ == separator_line(sizes@.map_values(|w: usize| w as int)),
{
    let ghost widths = sizes@.map_values(|w: usize| w as int);
    if sizes.len() == 0 {
        return String::new();
    }
    let mut out = dashes_fmt(sizes[0]);
    let mut i: usize = 1;
    while i < sizes.len()
        invariant
            1 <= i <= sizes@.len(),
            widths == sizes@.map_values(|w: usize| w as int),
            out@ == separator_cells(widths, i as int),
        decreases sizes@.len() - i,
    {
        out.append("-+-");
        let rendered = dashes_fmt(sizes[i]);
        out.append(rendered.as_str());
        i = i + 1;
    }
    out.append("\n");
    out
}

fn dashes_fmt(n: usize) -> (r: String)
    ensures
        r@ == dashes(n as int),
{
    let mut out = String::new();
    let mut k: usize = 0;
    proof {
        assert(out@ =~= dashes(0));
    }
    while k < n
        invariant
            k <= n,
            out@ == dashes(k as int),
        decreases n - k,
    {
        out.push('-');
        proof {
            assert(out@ =~= dashes(k + 1));
        }
        k = k + 1;
    }
    out
}

/// The column labels of a row type, in display order.
pub fn keys_iter<R: Row>() -> (v: Vec<String>)
    ensures
        v@.map_values(|s: String| s@) == R::keys_spec(),
{
    R::keys()
}

/// The header cells: each column label paired with its column width.
pub fn keys_cells<R: Row>(sizes: &[usize]) -> (v: Vec<Cell<String>>)
    requires
        sizes@.len() == R::keys_spec().len(),
    ensures
        v@.len() == R::keys_spec().len(),
        forall|j: int|
            0 <= j < v@.len() ==> cell_content(#[trigger] v@[j]) == R::keys_spec()[j] && v@[j].width
                == sizes@[j],
{
    let keys = R::keys();
    let mut v: Vec<Cell<String>> = Vec::new();
    let mut j: usize = 0;
    while j < keys.len()
        invariant
            j <= keys@.len(),
            keys@.map_values(|s: String| s@) == R::keys_spec(),
            sizes@.len() == R::keys_spec().len(),
            v@.len() == j,
            forall|i: int|
                0 <= i < j ==> cell_content(#[trigger] v@[i]) == R::keys_spec()[i] && v@[i].width
                    == sizes@[i],
        decreases keys@.len() - j,
    {
        let label = keys[j].clone();
        v.push(Cell::new(Some(label), sizes[j]));
        j = j + 1;
    }
    v
}

/// One row's optional values, in column order.
pub fn values_iter<R: Row>(row: &R) -> (v: Vec<Option<R::Value>>)
    ensures
        v@.len() == R::keys_spec().len(),
        forall|j: int| 0 <= j < v@.len() ==> #[trigger] v@[j] == row.value_spec(j),
{
    let keys = R::keys();
    let mut v: Vec<Option<R::Value>> = Vec::new();
    let mut j: usize = 0;
    while j < keys.len()
        invariant
            j <= keys@.len(),
            keys@.map_values(|s: String| s@) == R::keys_spec(),
            v@.len() == j,
            forall|i: int| 0 <= i < j ==> #[trigger] v@[i] == row.value_spec(i),
        decreases keys@.len() - j,
    {
        v.push(row.value(j));
        j = j + 1;
    }
    v
}

/// One row's cells: each optional value paired with its column width.
pub fn values_cells<R: Row>(row: &R, sizes: &[usize]) -> (v: Vec<Cell<R::Value>>)
    requires
        sizes@.len() == R::keys_spec().len(),
    ensures
        v@.len() == R::keys_spec().len(),
        forall|j: int|
            0 <= j < v@.len() ==> (#[trigger] v@[j]).value == row.value_spec(j) && v@[j].width
                == sizes@[j],
{
    let keys = R::keys();
    let mut v: Vec<Cell<R::Value>> = Vec::new();
    let mut j: usize = 0;
    while j < keys.len()
        invariant
            j <= keys@.len(),
            keys@.map_values(|s: String| s@) == R::keys_spec(),
            sizes@.len() == R::keys_spec().len(),
            v@.len() == j,
            forall|i: int|
                0 <= i < j ==> (#[trigger] v@[i]).value == row.value_spec(i) && v@[i].width
                    == sizes@[i],
        decreases keys@.len() - j,
    {
        v.push(Cell::new(row.value(j), sizes[j]));
        j = j + 1;
    }
    v
}

/// Raises `overall` to `current` where `current` is the larger.
pub fn max_in_place(overall: &mut usize, current: usize)
    ensures
        *final(overall) == if *old(overall) >= current {
            *old(overall)
        } else {
            current
        },
{
    if *overall < current {
        *overall = current;
    }
}

/// A write-only accumulator that measures the character-count width a
/// value occupies when rendered: both operations only raise an internal
/// character tally, counting every character as one unit whatever its
/// byte length. The tally saturates at the machine's limit.
pub struct WriteCounter {
    count: usize,
}

impl WriteCounter {
    /// The tally.
    pub closed spec fn count_spec(&self) -> int {
        self.count as int
    }

    /// Creates a counter with a zero tally.
    pub fn new() -> (r: Self)
        ensures
            r.count_spec() == 0,
    {
        WriteCounter { count: 0 }
    }

    /// Reads the tally.
    pub fn value(&self) -> (r: usize)
        ensures
            r as int == self.count_spec(),
    {
        self.count
    }

    /// Counts a string by its characters, never by its bytes.
    pub fn write_str(&mut self, s: &str)
        ensures
            old(self).count_spec() + s@.len() <= usize::MAX ==> final(self).count_spec() == old(
                self,
            ).count_spec() + s@.len(),
            old(self).count_spec() + s@.len() > usize::MAX ==> final(self).count_spec()
                == usize::MAX,
            old(self).count_spec() == 0 ==> final(self).count_spec() == s@.len(),
    {
        let chars = s.unicode_len();
        if self.count <= usize::MAX - chars {
            self.count = self.count + chars;
        } else {
            self.count = usize::MAX;
        }
    }

    /// Counts a single character as one unit.
    pub fn write_char(&mut self, c: char)
        ensures
            old(self).count_spec() < usize::MAX ==> final(self).count_spec() == old(
                self,
            ).count_spec() + 1,
            old(self).count_spec() == usize::MAX ==> final(self).count_spec() == usize::MAX,
    {
        if self.count < usize::MAX {
            self.count = self.count + 1;
        }
    }
}

fn measure_value<V: Render>(value: &Option<V>) -> (r: usize)
    ensures
        r as int == match value {
            Some(v) => v.render_spec(false).len() as int,
            None => 0,
        },
{
    match value {
        Some(v) => {
            let rendered = v.render(false);
            let mut counter = WriteCounter::new();
            counter.write_str(rendered.as_str());
            counter.value()
        },
        None => 0,
    }
}

/// Computes every column's width over the given rows: the maximum of the
/// column label's length and of every present value's rendered character
/// count.
pub fn sizes_list<R: Row>(rows: &[R]) -> (v: Vec<usize>)
    ensures
        v@.len() == R::keys_spec().len(),
        forall|i: int| 0 <= i < v@.len() ==> #[trigger] v@[i] as int == column_width(rows@, i),
{
    let keys = R::keys();
    let n = keys.len();
    let mut overall: Vec<usize> = Vec::new();
    let mut j: usize = 0;
    while j < n
        invariant
            j <= n,
            n == keys@.len(),
            keys@.map_values(|s: String| s@) == R::keys_spec(),
            overall@.len() == j,
            forall|i: int| 0 <= i < j ==> #[trigger] overall@[i] as int == 0,
        decreases n - j,
    {
        overall.push(0);
        j = j + 1;
    }
    let mut r: usize = 0;
    proof {
        assert(rows@.take(0) =~= Seq::<R>::empty());
        assert forall|i: int| 0 <= i < n implies #[trigger] overall@[i] as int == rows_width(
            rows@.take(0),
            i,
        ) by {};
    }
    while r < rows.len()
        invariant
            r <= rows@.len(),
            n == keys@.len(),
            keys@.map_values(|s: String| s@) == R::keys_spec(),
            overall@.len() == n,
            forall|i: int|
                0 <= i < n ==> #[trigger] overall@[i] as int == rows_width(rows@.take(r as int), i),
        decreases rows@.len() - r,
    {
        let row = &rows[r];
        let vals = values_iter(row);
        let mut next: Vec<usize> = Vec::new();
        let mut j: usize = 0;
        while j < n
            invariant
                j <= n,
                n == keys@.len(),
                overall@.len() == n,
                vals@.len() == n,
                n == R::keys_spec().len(),
                r < rows@.len(),
                forall|i: int| 0 <= i < n ==> #[trigger] vals@[i] == rows@[r as int].value_spec(i),
                forall|i: int|
                    0 <= i < n ==> #[trigger] overall@[i] as int == rows_width(
                        rows@.take(r as int),
                        i,
                    ),
                next@.len() == j,
                forall|i: int|
                    0 <= i < j ==> #[trigger] next@[i] as int == (if rows_width(
                        rows@.take(r as int),
                        i,
                    ) >= value_width(rows@[r as int], i) {
                        rows_width(rows@.take(r as int), i)
                    } else {
                        value_width(rows@[r as int], i)
                    }),
            decreases n - j,
        {
            let current = measure_value(&vals[j]);
            let mut widest = overall[j];
            max_in_place(&mut widest, current);
            next.push(widest);
            j = j + 1;
        }
        overall = next;
        proof {
            assert(rows@.take(r + 1).drop_last() =~= rows@.take(r as int));
            assert(rows@.take(r + 1).last() == rows@[r as int]);
            assert forall|i: int| 0 <= i < n implies #[trigger] overall@[i] as int == rows_width(
                rows@.take(r + 1),
                i,
            ) by {};
        }
        r = r + 1;
    }
    proof {
        assert(rows@.take(rows@.len() as int) =~= rows@);
    }
    let mut sized: Vec<usize> = Vec::new();
    let mut j: usize = 0;
    while j < n
        invariant
            j <= n,
            n == keys@.len(),
            keys@.map_values(|s: String| s@) == R::keys_spec(),
            overall@.len() == n,
            forall|i: int| 0 <= i < n ==> #[trigger] overall@[i] as int == rows_width(rows@, i),
            sized@.len() == j,
            forall|i: int| 0 <= i < j ==> #[trigger] sized@[i] as int == column_width(rows@, i),
        decreases n - j,
    {
        let label_len = keys[j].as_str().unicode_len();
        let mut widest = label_len;
        proof {
            assert(keys@.map_values(|s: String| s@)[j as int] == R::keys_spec()[j as int]);
        }
        max_in_place(&mut widest, overall[j]);
        sized.push(widest);
        j = j + 1;
    }
    sized
}

/// A temporary value to be displayed as a table, wrapping a borrowed row
/// slice. Values of this type are returned from [`AsTable::as_table`].
#[derive(Clone, Copy, Debug)]
pub struct Table<'a, R> {
    /// The rows, in display order.
    pub rows: &'a [R],
}

/// Any type whose value can be displayed as a table of rows.
pub trait AsTable {
    /// The row type.
    type Item: Row;

    /// The rows to display, in order.
    spec fn rows_spec(&self) -> Seq<Self::Item>;

    /// Wraps this value for table display.
    fn as_table(&self) -> (t: Table<'_, Self::Item>)
        ensures
            t.rows@ == self.rows_spec(),
    ;
}

impl<R: Row> AsTable for Vec<R> {
    type Item = R;

    open spec fn rows_spec(&self) -> Seq<R> {
        self@
    }

    fn as_table(&self) -> (t: Table<'_, R>) {
        Table { rows: self.as_slice() }
    }
}

impl<'a, R: Row> Table<'a, R> {
    /// Renders the whole table: exactly `[]` for no rows; otherwise a
    /// leading newline, the header row, the separator line, and every
    /// data row, all aligned to the measured column widths.
    pub fn to_string(&self) -> (r: String)
        ensures
            r@ == table_text(self.rows@),
    {
        if self.rows.len() == 0 {
            return "[]".to_owned();
        }
        let ghost widths = widths_spec(self.rows@);
        let sizes = sizes_list(self.rows);
        proof {
            assert(sizes@.map_values(|w: usize| w as int) =~= widths);
        }
        let mut out = String::new();
        out.append("\n");
        let header = keys_cells::<R>(sizes.as_slice());
        let header_line = row_fmt(header.as_slice());
        proof {
            assert(header@.map_values(|c: Cell<String>| cell_content(c)) =~= R::keys_spec());
            assert(header@.map_values(|c: Cell<String>| c.width as int) =~= widths);
        }
        out.append(header_line.as_str());
        let separator = line_fmt(sizes.as_slice());
        out.append(separator.as_str());
        let mut k: usize = 0;
        proof {
            assert(out@ =~= "\n"@ + row_line(R::keys_spec(), widths) + separator_line(widths)
                + data_text(self.rows@, widths, 0));
        }
        while k < self.rows.len()
            invariant
                k <= self.rows@.len(),
                widths == widths_spec(self.rows@),
                sizes@.map_values(|w: usize| w as int) == widths,
                sizes@.len() == R::keys_spec().len(),
                out@ == "\n"@ + row_line(R::keys_spec(), widths) + separator_line(widths)
                    + data_text(self.rows@, widths, k as int),
            decreases self.rows@.len() - k,
        {
            let cells = values_cells(&self.rows[k], sizes.as_slice());
            let line = row_fmt(cells.as_slice());
            proof {
                assert(cells@.map_values(|c: Cell<R::Value>| cell_content(c)) =~= row_contents(
                    self.rows@[k as int],
                ));
                assert(cells@.map_values(|c: Cell<R::Value>| c.width as int) =~= widths);
            }
            out.append(line.as_str());
            k = k + 1;
        }
        out
    }
}

} // verus!
