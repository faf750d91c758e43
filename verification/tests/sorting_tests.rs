use stock_table::ColSort;
use stock_table::StockTableDelegate;

#[test]
fn sort_ascending_orders_ids() {
    let mut d = StockTableDelegate::new(10);
    d.perform_sort(0, ColSort::Descending);
    d.perform_sort(0, ColSort::Default);
    let ids: Vec<usize> = d.stocks.iter().map(|s| s.id).collect();
    assert_eq!(ids, (0..10).collect::<Vec<usize>>());
}

#[test]
fn sort_descending_orders_ids() {
    let mut d = StockTableDelegate::new(10);
    d.perform_sort(0, ColSort::Descending);
    let ids: Vec<usize> = d.stocks.iter().map(|s| s.id).collect();
    assert_eq!(ids, (0..10).rev().collect::<Vec<usize>>());
}

#[test]
fn sort_keeps_rows_together() {
    let mut d = StockTableDelegate::new(10);
    let mut pairs: Vec<(usize, String)> = d
        .stocks
        .iter()
        .map(|s| (s.id, s.symbol.clone()))
        .collect();
    d.perform_sort(0, ColSort::Descending);
    pairs.reverse();
    let after: Vec<(usize, String)> = d
        .stocks
        .iter()
        .map(|s| (s.id, s.symbol.clone()))
        .collect();
    assert_eq!(after, pairs);
}

#[test]
fn sorting_twice_is_idempotent_with_duplicate_ids() {
    // After one page load the ids contain duplicates; a second sort in the
    // same direction must leave the order exactly as it was.
    let mut d = StockTableDelegate::new(5);
    d.load_more();
    d.finish_load_more();
    d.perform_sort(0, ColSort::Default);
    let once: Vec<(usize, String)> = d
        .stocks
        .iter()
        .map(|s| (s.id, s.symbol.clone()))
        .collect();
    d.perform_sort(0, ColSort::Default);
    let twice: Vec<(usize, String)> = d
        .stocks
        .iter()
        .map(|s| (s.id, s.symbol.clone()))
        .collect();
    assert_eq!(once, twice);
    let ids: Vec<usize> = once.iter().map(|p| p.0).collect();
    let mut sorted_ids = ids.clone();
    sorted_ids.sort();
    assert_eq!(ids, sorted_ids);
}

#[test]
fn sort_on_non_identity_column_is_a_noop() {
    let mut d = StockTableDelegate::new(10);
    d.perform_sort(0, ColSort::Descending);
    let before: Vec<usize> = d.stocks.iter().map(|s| s.id).collect();
    d.perform_sort(1, ColSort::Default);
    d.perform_sort(3, ColSort::Descending);
    let after: Vec<usize> = d.stocks.iter().map(|s| s.id).collect();
    assert_eq!(before, after);
}

#[test]
fn sort_disabled_is_a_noop() {
    let mut d = StockTableDelegate::new(10);
    d.col_sort = false;
    d.perform_sort(0, ColSort::Descending);
    let ids: Vec<usize> = d.stocks.iter().map(|s| s.id).collect();
    assert_eq!(ids, (0..10).collect::<Vec<usize>>());
}

#[test]
fn sort_follows_the_identity_column_after_reorder() {
    let mut d = StockTableDelegate::new(10);
    d.move_col(0, 3);
    // The identity column now sits at index 3.
    d.perform_sort(3, ColSort::Descending);
    let ids: Vec<usize> = d.stocks.iter().map(|s| s.id).collect();
    assert_eq!(ids, (0..10).rev().collect::<Vec<usize>>());
}
