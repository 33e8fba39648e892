//! Instant display of plain collections: wrappers that give any iterable
//! list or map a renderable form without a hand-written implementation.

mod iterable;
mod list;
mod struct_show;

pub use iterable::Iterable;
pub use iterable::Kind;
pub use iterable::Passage;
pub use iterable::Source;
pub use list::InstantList;
pub use struct_show::InstantStruct;
