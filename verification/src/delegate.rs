//! The tabular data delegate: the single source of truth for a sortable,
//! reorderable, paginated grid. It owns the row and column sequences and
//! the paging flags, and answers the metadata queries a rendering layer
//! makes; it never draws anything itself.

use vstd::prelude::*;
use crate::cell::CellValue;
use crate::cell::TableError;
use crate::cell::spec_cell;
use crate::column::ColFixed;
use crate::column::ColSort;
use crate::column::Column;
use crate::column::ColumnKey;
use crate::parse::all_digits;
use crate::parse::digits_val;
use crate::parse::numeral_digits;
use crate::parse::parse_row_count;
use crate::sorting::lemma_remove_insert_multiset;
use crate::sorting::sort_stocks_by_id;
use crate::sorting::sorted_by_id;
use crate::stock::Stock;
use crate::stock::PRICE_MAX_MILLI;
use crate::stock::PRICE_MIN_MILLI;
use crate::stock::random_refresh;
use crate::stock::random_stocks;

verus! {

/// Rows appended by one completed page fetch.
pub const PAGE_SIZE: usize = 200;

/// Once the row count reaches this cap, no further pages exist.
pub const MAX_ROWS: usize = 6000;

/// How close to the bottom the caller may scroll before it should request
/// the next page.
pub const LOAD_MORE_THRESHOLD: usize = 150;

/// The width every column is laid out with, in pixels.
pub const COL_WIDTH_PX: u64 = 120;

/// The display density presets the context menu offers.
#[derive(Clone, Copy, Debug, PartialEq, Eq, Structural)]
pub enum TableSize {
    XSmall,
    Small,
    Medium,
    Large,
}

impl Default for TableSize {
    fn default() -> (r: Self)
        ensures
            r == TableSize::Medium,
    {
        TableSize::Medium
    }
}

/// The delegate's state: the ordered rows and columns, the capability
/// flags fixed at construction (and togglable by the caller), and the two
/// paging flags. `loading` means a page fetch is in flight; `is_eof` means
/// no further pages exist and is cleared only by a full reset.
pub struct StockTableDelegate {
    pub stocks: Vec<Stock>,
    pub columns: Vec<Column>,
    pub size: TableSize,
    pub loop_selection: bool,
    pub col_resize: bool,
    pub col_order: bool,
    pub col_sort: bool,
    pub col_selection: bool,
    pub loading: bool,
    pub fixed_cols: bool,
    pub is_eof: bool,
}

impl StockTableDelegate {
    /// The capability flags and display size of `self` and `other` agree.
    pub open spec fn same_config(self, other: Self) -> bool {
        &&& self.size == other.size
        &&& self.loop_selection == other.loop_selection
        &&& self.col_resize == other.col_resize
        &&& self.col_order == other.col_order
        &&& self.col_sort == other.col_sort
        &&& self.col_selection == other.col_selection
        &&& self.fixed_cols == other.fixed_cols
    }

    /// A further page may be requested: none is in flight and the end of
    /// the data has not been reached.
    pub open spec fn can_load_more_spec(self) -> bool {
        !self.loading && !self.is_eof
    }

    /// A sort request for `col_ix` reorders the rows: sorting is enabled
    /// and the column projects the identity field, the one field with a
    /// defined ordering.
    pub open spec fn sort_targets_rows(self, col_ix: int) -> bool {
        &&& self.col_sort
        &&& 0 <= col_ix < self.columns@.len()
        &&& self.columns@[col_ix].key == ColumnKey::Id
    }

    /// Build a delegate with `size` fresh rows, the four stock columns,
    /// every capability enabled except fixed columns, and idle paging
    /// state.
    pub fn new(size: usize) -> (d: StockTableDelegate)
        ensures
            d.stocks@.len() == size,
            forall|i: int| 0 <= i < size ==> (#[trigger] d.stocks@[i]).id == i,
            forall|i: int| 0 <= i < size ==> (#[trigger] d.stocks@[i]).price_milli == 0,
            d.columns@.len() == 4,
            d.columns@[0].key == ColumnKey::Id,
            d.columns@[0].name@ == "ID"@,
            d.columns@[0].sort == None::<ColSort>,
            d.columns@[1].key == ColumnKey::Symbol,
            d.columns@[1].name@ == "Symbol"@,
            d.columns@[1].sort == Some(ColSort::Default),
            d.columns@[2].key == ColumnKey::Name,
            d.columns@[2].name@ == "Name"@,
            d.columns@[2].sort == None::<ColSort>,
            d.columns@[3].key == ColumnKey::Price,
            d.columns@[3].name@ == "Price"@,
            d.columns@[3].sort == Some(ColSort::Default),
            d.size == TableSize::Medium,
            d.loop_selection && d.col_resize && d.col_order && d.col_sort && d.col_selection,
            !d.fixed_cols && !d.loading && !d.is_eof,
    {
        let mut columns: Vec<Column> = Vec::new();
        columns.push(Column::new(ColumnKey::Id, "ID".to_string(), None));
        columns.push(Column::new(ColumnKey::Symbol, "Symbol".to_string(), Some(ColSort::Default)));
        columns.push(Column::new(ColumnKey::Name, "Name".to_string(), None));
        columns.push(Column::new(ColumnKey::Price, "Price".to_string(), Some(ColSort::Default)));
        StockTableDelegate {
            stocks: random_stocks(size),
            columns,
            size: TableSize::default(),
            loop_selection: true,
            col_resize: true,
            col_order: true,
            col_sort: true,
            col_selection: true,
            loading: false,
            fixed_cols: false,
            is_eof: false,
        }
    }

    /// Discard the rows and regenerate `size` fresh ones; both paging
    /// flags are cleared, whatever the prior state.
    pub fn update_stocks(&mut self, size: usize)
        ensures
            final(self).same_config(*old(self)),
            final(self).columns@ == old(self).columns@,
            final(self).stocks@.len() == size,
            forall|i: int| 0 <= i < size ==> (#[trigger] final(self).stocks@[i]).id == i,
            forall|i: int| 0 <= i < size ==> (#[trigger] final(self).stocks@[i]).price_milli == 0,
            final(self).loading == false,
            final(self).is_eof == false,
    {
        self.stocks = random_stocks(size);
        self.is_eof = false;
        self.loading = false;
    }

    /// The input collaborator's commit handler: reset the rows to the
    /// committed count. Text that does not read as a non-negative decimal
    /// numeral fitting the row-count type is ignored and the state is
    /// left untouched.
    pub fn apply_row_count_input(&mut self, text: &str)
        ensures
            final(self).same_config(*old(self)),
            final(self).columns@ == old(self).columns@,
            !(numeral_digits(text@).len() > 0 && all_digits(numeral_digits(text@))
                && digits_val(numeral_digits(text@)) <= usize::MAX as int) ==> final(self).stocks@
                == old(self).stocks@ && final(self).loading == old(self).loading
                && final(self).is_eof == old(self).is_eof,
            (numeral_digits(text@).len() > 0 && all_digits(numeral_digits(text@)) && digits_val(
                numeral_digits(text@),
            ) <= usize::MAX as int) ==> {
                &&& final(self).stocks@.len() == digits_val(numeral_digits(text@))
                &&& (forall|i: int|
                    0 <= i < final(self).stocks@.len() ==> (#[trigger] final(self).stocks@[i]).id
                        == i)
                &&& (forall|i: int|
                    0 <= i < final(self).stocks@.len()
                        ==> (#[trigger] final(self).stocks@[i]).price_milli == 0)
                &&& final(self).loading == false
                &&& final(self).is_eof == false
            },
    {
        match parse_row_count(text) {
            Some(n) => self.update_stocks(n),
            None => (),
        }
    }

    /// Pure query: how many rows the table currently holds.
    pub fn rows_count(&self) -> (n: usize)
        ensures
            n == self.stocks@.len(),
    {
        self.stocks.len()
    }

    /// Pure query: how many columns the table currently holds.
    pub fn cols_count(&self) -> (n: usize)
        ensures
            n == self.columns@.len(),
    {
        self.columns.len()
    }

    /// The header label of column `col_ix`; out of range degrades to the
    /// placeholder label.
    pub fn col_name(&self, col_ix: usize) -> (r: String)
        ensures
            col_ix < self.columns@.len() ==> r@ == self.columns@[col_ix as int].name@,
            col_ix >= self.columns@.len() ==> r@ == "--"@,
    {
        if col_ix < self.columns.len() {
            self.columns[col_ix].name.clone()
        } else {
            "--".to_string()
        }
    }

    /// Every real column is laid out with the same fixed width; out of
    /// range there is no constraint.
    pub fn col_width(&self, col_ix: usize) -> (r: Option<u64>)
        ensures
            r == (if col_ix < self.columns@.len() {
                Some(COL_WIDTH_PX)
            } else {
                None::<u64>
            }),
    {
        if col_ix < self.columns.len() {
            Some(COL_WIDTH_PX)
        } else {
            None
        }
    }

    /// Columns three through ten drop their padding; elsewhere there is no
    /// constraint.
    pub fn col_padding(&self, col_ix: usize) -> (r: Option<u64>)
        ensures
            r == (if 3 <= col_ix <= 10 {
                Some(0u64)
            } else {
                None::<u64>
            }),
    {
        if 3 <= col_ix && col_ix <= 10 {
            Some(0)
        } else {
            None
        }
    }

    /// When fixed columns are enabled, the first four are pinned to the
    /// left; otherwise no column is pinned.
    pub fn col_fixed(&self, col_ix: usize) -> (r: Option<ColFixed>)
        ensures
            r == (if self.fixed_cols && col_ix < 4 {
                Some(ColFixed::Left)
            } else {
                None::<ColFixed>
            }),
    {
        if self.fixed_cols && col_ix < 4 {
            Some(ColFixed::Left)
        } else {
            None
        }
    }

    /// A column can be resized iff resizing is enabled and it is not one
    /// of the two leading columns.
    pub fn can_resize_col(&self, col_ix: usize) -> (r: bool)
        ensures
            r == (self.col_resize && col_ix > 1),
    {
        self.col_resize && col_ix > 1
    }

    /// Column selection is a per-table capability.
    pub fn can_select_col(&self, _col_ix: usize) -> (r: bool)
        ensures
            r == self.col_selection,
    {
        self.col_selection
    }

    /// Whether row selection wraps around at the ends.
    pub fn can_loop_select(&self) -> (r: bool)
        ensures
            r == self.loop_selection,
    {
        self.loop_selection
    }

    /// Column reordering is a per-table capability.
    pub fn can_move_col(&self, _col_ix: usize) -> (r: bool)
        ensures
            r == self.col_order,
    {
        self.col_order
    }

    /// The sort marker of column `col_ix`: its own capability when sorting
    /// is enabled, and no marker when sorting is disabled or the index is
    /// out of range.
    pub fn col_sort(&self, col_ix: usize) -> (r: Option<ColSort>)
        ensures
            r == (if self.col_sort && col_ix < self.columns@.len() {
                self.columns@[col_ix as int].sort
            } else {
                None::<ColSort>
            }),
    {
        if !self.col_sort {
            return None;
        }
        if col_ix < self.columns.len() {
            self.columns[col_ix].sort
        } else {
            None
        }
    }

    /// The checked cell read: the value row `row_ix` shows under column
    /// `col_ix`, or an error iff either index is out of range.
    pub fn cell_value(&self, row_ix: usize, col_ix: usize) -> (r: Result<CellValue, TableError>)
        ensures
            r is Ok <==> (row_ix < self.stocks@.len() && col_ix < self.columns@.len()),
            r is Ok ==> r->Ok_0 == spec_cell(
                self.stocks@[row_ix as int],
                self.columns@[col_ix as int].key,
            ),
            r is Err ==> r->Err_0 == TableError::IndexOutOfRange,
    {
        if row_ix >= self.stocks.len() || col_ix >= self.columns.len() {
            return Err(TableError::IndexOutOfRange);
        }
        let stock = &self.stocks[row_ix];
        let r = match self.columns[col_ix].key {
            ColumnKey::Id => CellValue::Id(stock.id),
            ColumnKey::Symbol => CellValue::Text(stock.symbol.clone()),
            ColumnKey::Name => CellValue::Text(stock.name.clone()),
            ColumnKey::Price => CellValue::PriceMilli(stock.price_milli),
        };
        Ok(r)
    }

    /// Remove the column at `from_ix` and reinsert it at `to_ix`. Only
    /// permitted while reordering is enabled; then the column sequence is
    /// permuted — the same multiset of columns, none created or destroyed.
    pub fn move_col(&mut self, from_ix: usize, to_ix: usize)
        requires
            from_ix < old(self).columns@.len(),
            to_ix < old(self).columns@.len(),
        ensures
            final(self).same_config(*old(self)),
            final(self).stocks@ == old(self).stocks@,
            final(self).loading == old(self).loading,
            final(self).is_eof == old(self).is_eof,
            old(self).col_order ==> final(self).columns@ == old(self).columns@.remove(
                from_ix as int,
            ).insert(to_ix as int, old(self).columns@[from_ix as int]),
            !old(self).col_order ==> final(self).columns@ == old(self).columns@,
            final(self).columns@.len() == old(self).columns@.len(),
            final(self).columns@.to_multiset() == old(self).columns@.to_multiset(),
    {
        if !self.col_order {
            return ;
        }
        let col = self.columns.remove(from_ix);
        self.columns.insert(to_ix, col);
        proof {
            lemma_remove_insert_multiset(old(self).columns@, from_ix as int, to_ix as int);
        }
    }

    /// Apply a sort request. When sorting is enabled and column `col_ix`
    /// projects the identity field, the rows are reordered into the
    /// requested direction — a permutation, and the identity of an already
    /// sorted sequence; every other request is a silent no-op.
    pub fn perform_sort(&mut self, col_ix: usize, sort: ColSort)
        ensures
            final(self).same_config(*old(self)),
            final(self).columns@ == old(self).columns@,
            final(self).loading == old(self).loading,
            final(self).is_eof == old(self).is_eof,
            !old(self).sort_targets_rows(col_ix as int) ==> final(self).stocks@ == old(
                self,
            ).stocks@,
            old(self).sort_targets_rows(col_ix as int) ==> {
                &&& final(self).stocks@.len() == old(self).stocks@.len()
                &&& final(self).stocks@.to_multiset() == old(self).stocks@.to_multiset()
                &&& sorted_by_id(final(self).stocks@, sort is Descending)
                &&& sorted_by_id(old(self).stocks@, sort is Descending) ==> final(self).stocks@
                    == old(self).stocks@
            },
    {
        if !self.col_sort {
            return ;
        }
        if col_ix >= self.columns.len() {
            return ;
        }
        let targets_rows = match self.columns[col_ix].key {
            ColumnKey::Id => true,
            _ => false,
        };
        if targets_rows {
            let descending = match sort {
                ColSort::Descending => true,
                _ => false,
            };
            sort_stocks_by_id(&mut self.stocks, descending);
        }
    }

    /// A further page may be requested iff none is in flight and the end
    /// of the data has not been reached.
    pub fn can_load_more(&self) -> (r: bool)
        ensures
            r == self.can_load_more_spec(),
    {
        !self.loading && !self.is_eof
    }

    /// The fixed scroll proximity at which the caller should request the
    /// next page.
    pub fn load_more_threshold(&self) -> (r: usize)
        ensures
            r == LOAD_MORE_THRESHOLD,
    {
        LOAD_MORE_THRESHOLD
    }

    /// Request the next page: marks a fetch as in flight, so that no
    /// duplicate request can be issued before `finish_load_more` resolves
    /// it. A request while none is permitted changes nothing.
    pub fn load_more(&mut self)
        ensures
            final(self).same_config(*old(self)),
            final(self).columns@ == old(self).columns@,
            final(self).stocks@ == old(self).stocks@,
            final(self).is_eof == old(self).is_eof,
            final(self).loading == (old(self).loading || old(self).can_load_more_spec()),
            old(self).can_load_more_spec() ==> !final(self).can_load_more_spec(),
    {
        if self.can_load_more() {
            self.loading = true;
        }
    }

    /// Resolve the page fetch in flight: append one batch of fresh rows,
    /// clear `loading`, and set `is_eof` once the row-count cap is
    /// reached. Loading becomes permitted again iff the cap is not yet
    /// reached.
    pub fn finish_load_more(&mut self)
        requires
            old(self).loading,
        ensures
            final(self).same_config(*old(self)),
            final(self).columns@ == old(self).columns@,
            final(self).loading == false,
            final(self).stocks@.len() == old(self).stocks@.len() + PAGE_SIZE,
            final(self).stocks@.subrange(0, old(self).stocks@.len() as int) == old(self).stocks@,
            forall|k: int|
                0 <= k < PAGE_SIZE ==> (#[trigger] final(self).stocks@[old(self).stocks@.len()
                    + k]).id == k,
            forall|k: int|
                0 <= k < PAGE_SIZE ==> (#[trigger] final(self).stocks@[old(self).stocks@.len()
                    + k]).price_milli == 0,
            final(self).is_eof == (old(self).stocks@.len() + PAGE_SIZE >= MAX_ROWS),
            final(self).can_load_more_spec() == (old(self).stocks@.len() + PAGE_SIZE < MAX_ROWS),
    {
        let mut page = random_stocks(PAGE_SIZE);
        self.stocks.append(&mut page);
        self.loading = false;
        self.is_eof = self.stocks.len() >= MAX_ROWS;
        proof {
            assert(self.stocks@.subrange(0, old(self).stocks@.len() as int) =~= old(self).stocks@);
        }
    }

    /// One tick of the background refresh: perturb the price of roughly a
    /// third of the rows in place. Row count, identities and text fields
    /// are untouched, as are the columns and the paging flags. The first
    /// row's price is freshly sampled on every tick, and the prices of
    /// rows one and two are exactly kept.
    pub fn refresh_tick(&mut self)
        ensures
            final(self).same_config(*old(self)),
            final(self).columns@ == old(self).columns@,
            final(self).loading == old(self).loading,
            final(self).is_eof == old(self).is_eof,
            final(self).stocks@.len() == old(self).stocks@.len(),
            forall|i: int|
                0 <= i < old(self).stocks@.len() ==> (#[trigger] final(self).stocks@[i]).id == old(
                    self,
                ).stocks@[i].id,
            forall|i: int|
                0 <= i < old(self).stocks@.len() ==> (#[trigger] final(self).stocks@[i]).symbol
                    == old(self).stocks@[i].symbol,
            forall|i: int|
                0 <= i < old(self).stocks@.len() ==> (#[trigger] final(self).stocks@[i]).name
                    == old(self).stocks@[i].name,
            forall|i: int|
                0 <= i < old(self).stocks@.len()
                    ==> ((#[trigger] final(self).stocks@[i]).price_milli
                    == old(self).stocks@[i].price_milli
                    || PRICE_MIN_MILLI <= final(self).stocks@[i].price_milli
                    < PRICE_MAX_MILLI),
            old(self).stocks@.len() > 0 ==> PRICE_MIN_MILLI <= final(self).stocks@[0].price_milli
                < PRICE_MAX_MILLI,
            forall|i: int|
                (i == 1 || i == 2) && 0 <= i < old(self).stocks@.len()
                    ==> (#[trigger] final(self).stocks@[i]).price_milli
                    == old(self).stocks@[i].price_milli,
    {
        random_refresh(&mut self.stocks);
    }

    /// The fixed list of display density presets the context menu offers,
    /// in the order they are shown.
    pub fn size_presets(&self) -> (r: Vec<TableSize>)
        ensures
            r@.len() == 4,
            r@[0] == TableSize::Large,
            r@[1] == TableSize::Medium,
            r@[2] == TableSize::Small,
            r@[3] == TableSize::XSmall,
    {
        let mut r: Vec<TableSize> = Vec::new();
        r.push(TableSize::Large);
        r.push(TableSize::Medium);
        r.push(TableSize::Small);
        r.push(TableSize::XSmall);
        r
    }

    /// Store the display density the context-menu collaborator chose.
    pub fn set_size(&mut self, size: TableSize)
        ensures
            final(self).size == size,
            final(self).columns@ == old(self).columns@,
            final(self).stocks@ == old(self).stocks@,
            final(self).loading == old(self).loading,
            final(self).is_eof == old(self).is_eof,
            final(self).loop_selection == old(self).loop_selection,
            final(self).col_resize == old(self).col_resize,
            final(self).col_order == old(self).col_order,
            final(self).col_sort == old(self).col_sort,
            final(self).col_selection == old(self).col_selection,
            final(self).fixed_cols == old(self).fixed_cols,
    {
        self.size = size;
    }
}

} // verus!
