use stock_table::CellTone;
use stock_table::CellValue;
use stock_table::ColFixed;
use stock_table::ColSort;
use stock_table::StockTableDelegate;
use stock_table::TableError;
use stock_table::TableSize;
use stock_table::price_tone;

#[test]
fn new_delegate_has_stock_columns_and_rows() {
    let d = StockTableDelegate::new(5);
    assert_eq!(d.rows_count(), 5);
    assert_eq!(d.cols_count(), 4);
    assert_eq!(d.col_name(0), "ID");
    assert_eq!(d.col_name(1), "Symbol");
    assert_eq!(d.col_name(2), "Name");
    assert_eq!(d.col_name(3), "Price");
    assert_eq!(d.col_name(9), "--");
    assert_eq!(d.size, TableSize::Medium);
    assert!(!d.loading);
    assert!(!d.is_eof);
    for (i, s) in d.stocks.iter().enumerate() {
        assert_eq!(s.id, i);
        assert_eq!(s.price_milli, 0);
    }
}

#[test]
fn reorder_moves_first_column_to_end() {
    let mut d = StockTableDelegate::new(5);
    d.move_col(0, 3);
    assert_eq!(d.col_name(0), "Symbol");
    assert_eq!(d.col_name(1), "Name");
    assert_eq!(d.col_name(2), "Price");
    assert_eq!(d.col_name(3), "ID");
}

#[test]
fn reorder_is_a_permutation() {
    let mut d = StockTableDelegate::new(5);
    let mut before: Vec<String> = (0..4).map(|i| d.col_name(i)).collect();
    d.move_col(2, 0);
    let mut after: Vec<String> = (0..4).map(|i| d.col_name(i)).collect();
    assert_eq!(after.len(), before.len());
    before.sort();
    after.sort();
    assert_eq!(before, after);
}

#[test]
fn reorder_disabled_is_a_noop() {
    let mut d = StockTableDelegate::new(5);
    d.col_order = false;
    assert!(!d.can_move_col(0));
    d.move_col(0, 3);
    assert_eq!(d.col_name(0), "ID");
    assert_eq!(d.col_name(3), "Price");
}

#[test]
fn request_blocks_loading_until_finish() {
    let mut d = StockTableDelegate::new(5);
    assert!(d.can_load_more());
    d.load_more();
    assert!(!d.can_load_more());
    assert!(d.loading);
    d.finish_load_more();
    assert!(!d.loading);
    assert!(d.can_load_more());
    assert_eq!(d.rows_count(), 205);
}

#[test]
fn repeated_loading_reaches_end_of_data() {
    let mut d = StockTableDelegate::new(5);
    while d.can_load_more() {
        d.load_more();
        d.finish_load_more();
    }
    assert_eq!(d.rows_count(), 6005);
    assert!(d.is_eof);
    assert!(!d.can_load_more());
    // A further request changes nothing.
    d.load_more();
    assert!(!d.loading);
    assert_eq!(d.rows_count(), 6005);
}

#[test]
fn loaded_page_appends_after_existing_rows() {
    let mut d = StockTableDelegate::new(3);
    let first: Vec<String> = d.stocks.iter().map(|s| s.symbol.clone()).collect();
    d.load_more();
    d.finish_load_more();
    for (i, sym) in first.iter().enumerate() {
        assert_eq!(&d.stocks[i].symbol, sym);
    }
    for k in 0..200 {
        assert_eq!(d.stocks[3 + k].id, k);
    }
}

#[test]
fn load_more_threshold_is_fixed() {
    let d = StockTableDelegate::new(1);
    assert_eq!(d.load_more_threshold(), 150);
}

#[test]
fn reset_clears_paging_state() {
    let mut d = StockTableDelegate::new(5);
    d.loading = true;
    d.is_eof = true;
    d.update_stocks(7);
    assert_eq!(d.rows_count(), 7);
    assert!(!d.loading);
    assert!(!d.is_eof);
    for (i, s) in d.stocks.iter().enumerate() {
        assert_eq!(s.id, i);
    }
}

#[test]
fn committed_number_resets_rows() {
    let mut d = StockTableDelegate::new(5);
    d.apply_row_count_input("12");
    assert_eq!(d.rows_count(), 12);
    d.apply_row_count_input("+7");
    assert_eq!(d.rows_count(), 7);
}

#[test]
fn committed_garbage_is_ignored() {
    let mut d = StockTableDelegate::new(5);
    let before: Vec<String> = d.stocks.iter().map(|s| s.symbol.clone()).collect();
    d.apply_row_count_input("abc");
    assert_eq!(d.rows_count(), 5);
    let after: Vec<String> = d.stocks.iter().map(|s| s.symbol.clone()).collect();
    assert_eq!(before, after);
}

#[test]
fn cell_value_projects_row_fields() {
    let d = StockTableDelegate::new(3);
    assert_eq!(d.cell_value(1, 0), Ok(CellValue::Id(1)));
    assert_eq!(d.cell_value(1, 1), Ok(CellValue::Text(d.stocks[1].symbol.clone())));
    assert_eq!(d.cell_value(2, 2), Ok(CellValue::Text(d.stocks[2].name.clone())));
    assert_eq!(d.cell_value(0, 3), Ok(CellValue::PriceMilli(0)));
}

#[test]
fn cell_value_rejects_out_of_range_indices() {
    let d = StockTableDelegate::new(3);
    assert_eq!(d.cell_value(3, 0), Err(TableError::IndexOutOfRange));
    assert_eq!(d.cell_value(0, 4), Err(TableError::IndexOutOfRange));
}

#[test]
fn column_width_and_padding_defaults() {
    let d = StockTableDelegate::new(2);
    assert_eq!(d.col_width(0), Some(120));
    assert_eq!(d.col_width(3), Some(120));
    assert_eq!(d.col_width(4), None);
    assert_eq!(d.col_padding(2), None);
    assert_eq!(d.col_padding(3), Some(0));
    assert_eq!(d.col_padding(10), Some(0));
    assert_eq!(d.col_padding(11), None);
}

#[test]
fn fixed_columns_pin_the_leading_four() {
    let mut d = StockTableDelegate::new(2);
    assert_eq!(d.col_fixed(0), None);
    d.fixed_cols = true;
    assert_eq!(d.col_fixed(0), Some(ColFixed::Left));
    assert_eq!(d.col_fixed(3), Some(ColFixed::Left));
    assert_eq!(d.col_fixed(4), None);
}

#[test]
fn capability_flags_answer_queries() {
    let mut d = StockTableDelegate::new(2);
    assert!(!d.can_resize_col(0));
    assert!(!d.can_resize_col(1));
    assert!(d.can_resize_col(2));
    assert!(d.can_select_col(0));
    assert!(d.can_loop_select());
    assert!(d.can_move_col(2));
    d.col_resize = false;
    d.col_selection = false;
    d.loop_selection = false;
    assert!(!d.can_resize_col(2));
    assert!(!d.can_select_col(0));
    assert!(!d.can_loop_select());
}

#[test]
fn sort_markers_follow_columns_and_flag() {
    let mut d = StockTableDelegate::new(2);
    assert_eq!(d.col_sort(0), None);
    assert_eq!(d.col_sort(1), Some(ColSort::Default));
    assert_eq!(d.col_sort(3), Some(ColSort::Default));
    assert_eq!(d.col_sort(9), None);
    d.col_sort = false;
    assert_eq!(d.col_sort(1), None);
}

#[test]
fn refresh_keeps_identities_and_text() {
    let mut d = StockTableDelegate::new(50);
    let ids: Vec<usize> = d.stocks.iter().map(|s| s.id).collect();
    let symbols: Vec<String> = d.stocks.iter().map(|s| s.symbol.clone()).collect();
    let names: Vec<String> = d.stocks.iter().map(|s| s.name.clone()).collect();
    d.refresh_tick();
    assert_eq!(d.rows_count(), 50);
    for (i, s) in d.stocks.iter().enumerate() {
        assert_eq!(s.id, ids[i]);
        assert_eq!(&s.symbol, &symbols[i]);
        assert_eq!(&s.name, &names[i]);
        assert!(s.price_milli >= -300_000 && s.price_milli < 999_999);
    }
}

#[test]
fn refresh_redraws_row_zero_and_keeps_rows_one_and_two() {
    // Index zero is a multiple of every per-row draw; indices one and two
    // are multiples of none in `3..10`.
    let mut d = StockTableDelegate::new(3);
    d.stocks[1].price_milli = 123;
    d.stocks[2].price_milli = 456;
    for _ in 0..5 {
        d.refresh_tick();
    }
    assert_eq!(d.stocks[1].price_milli, 123);
    assert_eq!(d.stocks[2].price_milli, 456);
    assert!(d.stocks[0].price_milli >= -300_000 && d.stocks[0].price_milli < 999_999);
}

#[test]
fn refresh_eventually_touches_a_price() {
    // Row 0 is re-randomized on every tick; a freshly drawn price is zero
    // only with vanishing probability, so a handful of ticks must move
    // some price away from the initial zero.
    let mut d = StockTableDelegate::new(10);
    for _ in 0..20 {
        d.refresh_tick();
    }
    assert!(d.stocks.iter().any(|s| s.price_milli != 0));
}

#[test]
fn context_menu_offers_the_four_presets() {
    let d = StockTableDelegate::new(1);
    let presets = d.size_presets();
    assert_eq!(
        presets,
        vec![TableSize::Large, TableSize::Medium, TableSize::Small, TableSize::XSmall]
    );
}

#[test]
fn set_size_stores_the_chosen_preset() {
    let mut d = StockTableDelegate::new(1);
    d.set_size(TableSize::Large);
    assert_eq!(d.size, TableSize::Large);
    assert_eq!(d.rows_count(), 1);
}

#[test]
fn price_tone_cycles_through_the_fraction() {
    assert_eq!(price_tone(0), CellTone::Red);
    assert_eq!(price_tone(1), CellTone::Green);
    assert_eq!(price_tone(2), CellTone::Neutral);
    assert_eq!(price_tone(3), CellTone::Red);
    assert_eq!(price_tone(1001), CellTone::Green);
    assert_eq!(price_tone(-1), CellTone::Red);
    assert_eq!(price_tone(-2), CellTone::Neutral);
    assert_eq!(price_tone(-1000), CellTone::Red);
}
