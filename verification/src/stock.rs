//! Rows of the table: generation of fresh sample rows and the in-place
//! price refresh that the background task applies.

use vstd::prelude::*;
use vstd::arithmetic::div_mod::lemma_small_mod;
use crate::random::fake_i64_in;
use crate::random::fake_string;
use crate::random::fake_usize_in;

verus! {

/// Lowest price the refresh can produce, in thousandths of a unit.
pub const PRICE_MIN_MILLI: i64 = -300_000;
/// Exclusive upper bound of the refreshed price, in thousandths of a unit.
pub const PRICE_MAX_MILLI: i64 = 999_999;

/// One row: an immutable identity, two descriptive text fields, and a price
/// that the background refresh perturbs in place. The price is held in
/// thousandths of a unit so that a display layer can render three decimals.
#[derive(Clone, Debug)]
pub struct Stock {
    pub id: usize,
    pub symbol: String,
    pub name: String,
    pub price_milli: i64,
}

impl Stock {
    /// Replace the price with a fresh uniform sample; every other field
    /// keeps its value.
    pub fn random_update(&mut self)
        ensures
            final(self).id == old(self).id,
            final(self).symbol == old(self).symbol,
            final(self).name == old(self).name,
            PRICE_MIN_MILLI <= final(self).price_milli < PRICE_MAX_MILLI,
    {
        self.price_milli = fake_i64_in(PRICE_MIN_MILLI, PRICE_MAX_MILLI);
    }
}

/// Generate `size` fresh rows: ids run `0..size`, the text fields are drawn
/// at random, and every price starts at zero.
pub fn random_stocks(size: usize) -> (r: Vec<Stock>)
    ensures
        r@.len() == size,
        forall|i: int| 0 <= i < size ==> (#[trigger] r@[i]).id == i,
        forall|i: int| 0 <= i < size ==> (#[trigger] r@[i]).price_milli == 0,
{
    let mut r: Vec<Stock> = Vec::new();
    for id in 0..size
        invariant
            r@.len() == id,
            forall|i: int| 0 <= i < id ==> (#[trigger] r@[i]).id == i,
            forall|i: int| 0 <= i < id ==> (#[trigger] r@[i]).price_milli == 0,
    {
        r.push(Stock { id, symbol: fake_string(), name: fake_string(), price_milli: 0 });
    }
    r
}

/// One tick of the background refresh: for each row draw `n` from `3..10`
/// and re-randomize the price of every row whose index is a multiple of
/// `n` — roughly a third of the collection per tick. No row is added or
/// removed, and identity and text fields are never touched. Every draw
/// divides index zero, so the first row's price is freshly sampled on
/// every tick; indices one and two are multiples of no draw, so those two
/// prices are exactly kept.
pub fn random_refresh(stocks: &mut Vec<Stock>)
    ensures
        final(stocks)@.len() == old(stocks)@.len(),
        forall|i: int|
            0 <= i < old(stocks)@.len() ==> (#[trigger] final(stocks)@[i]).id
                == old(stocks)@[i].id,
        forall|i: int|
            0 <= i < old(stocks)@.len() ==> (#[trigger] final(stocks)@[i]).symbol
                == old(stocks)@[i].symbol,
        forall|i: int|
            0 <= i < old(stocks)@.len() ==> (#[trigger] final(stocks)@[i]).name
                == old(stocks)@[i].name,
        forall|i: int|
            0 <= i < old(stocks)@.len() ==> ((#[trigger] final(stocks)@[i]).price_milli
                == old(stocks)@[i].price_milli
                || PRICE_MIN_MILLI <= final(stocks)@[i].price_milli < PRICE_MAX_MILLI),
        old(stocks)@.len() > 0 ==> PRICE_MIN_MILLI <= final(stocks)@[0].price_milli
            < PRICE_MAX_MILLI,
        forall|i: int|
            (i == 1 || i == 2) && 0 <= i < old(stocks)@.len()
                ==> (#[trigger] final(stocks)@[i]).price_milli == old(stocks)@[i].price_milli,
{
    let ghost orig = stocks@;
    let len = stocks.len();
    for i in 0..len
        invariant
            stocks@.len() == orig.len(),
            len == orig.len(),
            forall|j: int| 0 <= j < orig.len() ==> (#[trigger] stocks@[j]).id == orig[j].id,
            forall|j: int|
                0 <= j < orig.len() ==> (#[trigger] stocks@[j]).symbol == orig[j].symbol,
            forall|j: int| 0 <= j < orig.len() ==> (#[trigger] stocks@[j]).name == orig[j].name,
            forall|j: int|
                0 <= j < orig.len() ==> ((#[trigger] stocks@[j]).price_milli
                    == orig[j].price_milli || PRICE_MIN_MILLI <= stocks@[j].price_milli
                    < PRICE_MAX_MILLI),
            i > 0 && orig.len() > 0 ==> PRICE_MIN_MILLI <= stocks@[0].price_milli
                < PRICE_MAX_MILLI,
            forall|j: int|
                (j == 1 || j == 2) && 0 <= j < orig.len() ==> (#[trigger] stocks@[j]).price_milli
                    == orig[j].price_milli,
    {
        let n = fake_usize_in(3, 10);
        proof {
            if i == 1 || i == 2 {
                // An index below the draw is its own remainder, never zero.
                lemma_small_mod(i as nat, n as nat);
            }
        }
        if i % n == 0 {
            stocks[i].random_update();
        }
    }
}

} // verus!
