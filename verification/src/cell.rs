//! Cell projection: what a row shows under a given column key, and the
//! tone a price cell is rendered with.

use vstd::prelude::*;
use crate::column::ColumnKey;
use crate::stock::Stock;

verus! {

/// The typed content of one cell; a display layer turns it into text.
#[derive(Clone, Debug, PartialEq)]
pub enum CellValue {
    /// The identity column shows the row id.
    Id(usize),
    /// The symbol and name columns show a text field.
    Text(String),
    /// The price column shows the price in thousandths of a unit.
    PriceMilli(i64),
}

/// The one failure a checked read operation can signal.
#[derive(Clone, Copy, Debug, PartialEq, Eq, Structural)]
pub enum TableError {
    IndexOutOfRange,
}

/// The tone a price cell is rendered with, derived from the fractional
/// part of the price.
#[derive(Clone, Copy, Debug, PartialEq, Eq, Structural)]
pub enum CellTone {
    Red,
    Green,
    Neutral,
}

/// What a row shows under a column key.
pub open spec fn spec_cell(s: Stock, key: ColumnKey) -> CellValue {
    match key {
        ColumnKey::Id => CellValue::Id(s.id),
        ColumnKey::Symbol => CellValue::Text(s.symbol),
        ColumnKey::Name => CellValue::Text(s.name),
        ColumnKey::Price => CellValue::PriceMilli(s.price_milli),
    }
}

/// The tone of a price: the fractional thousandths decide, a third of the
/// values each going to red and to green.
pub open spec fn spec_price_tone(p: int) -> CellTone {
    let frac = p % 1000;
    if frac % 3 == 0 {
        CellTone::Red
    } else if frac % 3 == 1 {
        CellTone::Green
    } else {
        CellTone::Neutral
    }
}

/// Classify a price for display: the fractional thousandths of the price,
/// taken modulo three, pick red, green or the neutral tone.
pub fn price_tone(price_milli: i64) -> (r: CellTone)
    ensures
        r == spec_price_tone(price_milli as int),
{
    let rem = price_milli % 1000;
    let frac = if rem < 0 {
        rem + 1000
    } else {
        rem
    };
    let t = frac % 3;
    if t == 0 {
        CellTone::Red
    } else if t == 1 {
        CellTone::Green
    } else {
        CellTone::Neutral
    }
}

} // verus!
