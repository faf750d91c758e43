//! Column metadata: a stable key that projects a row to a cell value, a
//! display name, and an optional sort capability.

use vstd::prelude::*;

verus! {

/// The stable identifier of a column: which field of a row it displays.
#[derive(Clone, Copy, Debug, PartialEq, Eq, Structural)]
pub enum ColumnKey {
    Id,
    Symbol,
    Name,
    Price,
}

/// A column's sort state or capability marker.
#[derive(Clone, Copy, Debug, PartialEq, Eq, Structural)]
pub enum ColSort {
    /// Sortable, no direction applied yet.
    Default,
    Ascending,
    Descending,
}

/// The side a column is pinned to when fixed columns are enabled.
#[derive(Clone, Copy, Debug, PartialEq, Eq, Structural)]
pub enum ColFixed {
    Left,
    Right,
}

/// An entry of the delegate's ordered column sequence.
pub struct Column {
    /// Stable key used to project a row to a displayed value.
    pub key: ColumnKey,
    /// Human-readable header label.
    pub name: String,
    /// `Some` iff the column advertises itself as sortable.
    pub sort: Option<ColSort>,
}

impl Column {
    pub fn new(key: ColumnKey, name: String, sort: Option<ColSort>) -> (c: Column)
        ensures
            c.key == key,
            c.name == name,
            c.sort == sort,
    {
        Column { key, name, sort }
    }
}

} // verus!
