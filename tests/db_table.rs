use wynn_tools::db_table::{
    delete_row, set_category, set_enabled, set_notes, total_enabled, Category, ColumnKind, DBRow,
};

#[test]
fn generated_rows_cycle_categories() {
    let expected = [Category::A, Category::B, Category::C, Category::D, Category::E, Category::A];
    for (i, category) in expected.iter().enumerate() {
        let row = DBRow::generate(i);
        assert_eq!(row.category, *category);
        assert_eq!(row.is_enabled, i % 2 == 0);
        assert_eq!(row.data.cell, "");
    }
    assert_eq!(DBRow::generate(13).category, Category::D);
    assert!(!DBRow::generate(13).is_enabled);
}

#[test]
fn labels_and_headers() {
    let labels: Vec<&str> = Category::all().iter().map(|c| c.label()).collect();
    assert_eq!(labels, vec!["A", "B", "C", "D", "E"]);
    assert_eq!(ColumnKind::Index.header(), "Index");
    assert_eq!(ColumnKind::Category.header(), "Category");
    assert_eq!(ColumnKind::Enabled.header(), "Enabled");
    assert_eq!(ColumnKind::Notes.header(), "Notes");
    assert_eq!(ColumnKind::Delete.header(), "");
}

#[test]
fn counts_enabled_rows() {
    let rows: Vec<DBRow> = (0..7).map(DBRow::generate).collect();
    assert_eq!(total_enabled(&rows), 4);
    assert_eq!(total_enabled(&[]), 0);
}

#[test]
fn row_edits_touch_only_their_row() {
    let mut rows: Vec<DBRow> = (0..3).map(DBRow::generate).collect();
    set_category(&mut rows, 1, Category::E);
    set_enabled(&mut rows, 1, true);
    set_notes(&mut rows, 1, "note".to_string());
    assert_eq!(rows[1].category, Category::E);
    assert!(rows[1].is_enabled);
    assert_eq!(rows[1].data.cell, "note");
    assert_eq!(rows[0].category, Category::A);
    assert_eq!(rows[2].data.cell, "");
}

#[test]
fn edits_past_the_end_change_nothing() {
    let mut rows: Vec<DBRow> = (0..2).map(DBRow::generate).collect();
    set_category(&mut rows, 5, Category::E);
    set_enabled(&mut rows, 5, false);
    set_notes(&mut rows, 5, "x".to_string());
    assert_eq!(rows.len(), 2);
    assert_eq!(rows[0].category, Category::A);
    assert!(rows[0].is_enabled);
}

#[test]
fn delete_moves_later_rows_up() {
    let mut rows: Vec<DBRow> = (0..3).map(DBRow::generate).collect();
    delete_row(&mut rows, 0);
    assert_eq!(rows.len(), 2);
    assert_eq!(rows[0].category, Category::B);
    assert_eq!(rows[1].category, Category::C);
}
