//! Primitives that simplify structured data output: key-value groups,
//! ordered sequences and tabular grids, each in a compact one-line form or
//! a prettified multi-line form.

mod custom;
mod embed;
mod field;
mod instant;
mod laws;
mod list;
mod pair;
mod params;
mod path;
mod render;
mod sink;
mod struct_show;
mod table;

pub use custom::Custom;
pub use embed::EmbedList;
pub use embed::EmbedStruct;
pub use embed::display_list_from_embed;
pub use embed::display_struct_from_embed;
pub use field::Field;
pub use instant::InstantList;
pub use instant::InstantStruct;
pub use instant::Iterable;
pub use instant::Kind;
pub use instant::Passage;
pub use instant::Source;
pub use laws::lemma_one_line_adds_no_newline;
pub use laws::lemma_pad_interior_single_line;
pub use laws::lemma_pretty_entry_per_line;
pub use laws::lines_concat;
pub use laws::newline_free;
pub use list::ListShow;
pub use list::display_list;
pub use list::display_list_from_iter;
pub use list::item_text;
pub use list::items_text;
pub use pair::DisplayPair;
pub use params::Parameterized;
pub use params::Params;
pub use params::WithParams;
pub use path::NoOutput;
pub use path::PathLike;
pub use path::components_text;
pub use path::output_component;
pub use path::path_text;
pub use render::Render;
pub use render::Rendered;
pub use render::dec_digit;
pub use render::dec_i64;
pub use render::dec_int;
pub use render::dec_nat;
pub use render::dec_u64;
pub use sink::GroupKind;
pub use sink::Sink;
pub use sink::StringSink;
pub use sink::WriteFailure;
pub use sink::close_text;
pub use sink::entry_piece;
pub use sink::group_text;
pub use sink::last_newline;
pub use sink::open_text;
pub use sink::pad_interior;
pub use sink::pad_upto;
pub use sink::partial_group;
pub use struct_show::StructShow;
pub use struct_show::display_struct;
pub use struct_show::display_struct_from_iter;
pub use struct_show::field_text;
pub use struct_show::fields_text;
pub use struct_show::pairs_text;
pub use table::AsTable;
pub use table::Cell;
pub use table::Row;
pub use table::Table;
pub use table::WriteCounter;
pub use table::cell_content;
pub use table::cell_text;
pub use table::column_width;
pub use table::content_at;
pub use table::dashes;
pub use table::data_text;
pub use table::keys_cells;
pub use table::keys_iter;
pub use table::left_justified;
pub use table::line_fmt;
pub use table::max_in_place;
pub use table::row_cells;
pub use table::row_contents;
pub use table::row_fmt;
pub use table::row_line;
pub use table::rows_width;
pub use table::separator_cells;
pub use table::separator_line;
pub use table::sizes_list;
pub use table::spaces;
pub use table::table_text;
pub use table::value_width;
pub use table::values_cells;
pub use table::values_iter;
pub use table::widths_spec;

use vstd::prelude::*;

verus! {

/// Alternate mode to use while outputting.
#[derive(Clone, Copy, Debug, PartialEq, Eq, Structural)]
pub enum Alternate {
    /// Output data in one line.
    OneLine,
    /// Output data in prettified format.
    Pretty,
    /// Output data in the mode inherited from the surrounding context.
    Inherit,
}

/// The effective output mode: `true` for prettified output, `false` for
/// one-line output. `Inherit` defers to the ambient flag.
pub open spec fn resolve_spec(alternate: Alternate, ambient: bool) -> bool {
    match alternate {
        Alternate::OneLine => false,
        Alternate::Pretty => true,
        Alternate::Inherit => ambient,
    }
}

impl Alternate {
    /// Resolves this requested mode against the ambient prettiness flag.
    pub fn resolve(self, ambient: bool) -> (b: bool)
        ensures
            b == resolve_spec(self, ambient),
    {
        match self {
            Alternate::OneLine => false,
            Alternate::Pretty => true,
            Alternate::Inherit => ambient,
        }
    }
}

} // verus!
