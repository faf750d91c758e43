//! A sortable, reorderable, paginated stock table delegate.
//!
//! The delegate owns the row collection and the column metadata of a data
//! grid and answers the queries a rendering layer needs (row and column
//! counts, names, widths, capability flags). It mutates its own state in
//! response to user actions (column reordering, sorting, resetting) and to
//! the completion of simulated asynchronous page fetches.

mod cell;
mod column;
mod delegate;
mod parse;
mod random;
mod sorting;
mod stock;

pub use cell::CellTone;
pub use cell::CellValue;
pub use cell::TableError;
pub use cell::price_tone;
pub use cell::spec_cell;
pub use cell::spec_price_tone;
pub use column::ColFixed;
pub use column::ColSort;
pub use column::Column;
pub use column::ColumnKey;
pub use delegate::StockTableDelegate;
pub use delegate::TableSize;
pub use delegate::COL_WIDTH_PX;
pub use delegate::LOAD_MORE_THRESHOLD;
pub use delegate::MAX_ROWS;
pub use delegate::PAGE_SIZE;
pub use parse::all_digits;
pub use parse::digits_val;
pub use parse::is_digit;
pub use parse::numeral_digits;
pub use parse::parse_row_count;
pub use sorting::ids_in_order;
pub use sorting::lemma_remove_insert_multiset;
pub use sorting::sort_stocks_by_id;
pub use sorting::sorted_by_id;
pub use sorting::sorted_prefix;
pub use stock::Stock;
pub use stock::random_refresh;
pub use stock::random_stocks;
pub use stock::PRICE_MAX_MILLI;
pub use stock::PRICE_MIN_MILLI;
