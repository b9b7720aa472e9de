use gpui_playground::decimal::format_decimal;
use gpui_playground::labels::{click_message, greeting, item_label, source_label};
use gpui_playground::palette::PaletteColor;
use gpui_playground::root_view::{list_entries, swatches, LIST_LEN};

#[test]
fn decimal_matches_to_string() {
    for n in [0usize, 1, 9, 10, 11, 99, 100, 105, 4096, 1234567890, usize::MAX] {
        assert_eq!(format_decimal(n), n.to_string());
    }
}

#[test]
fn greeting_of_world() {
    assert_eq!(greeting("World"), "Hello, World!");
    assert_eq!(greeting(""), "Hello, !");
}

#[test]
fn labels_read_as_the_views_print_them() {
    assert_eq!(item_label(1), "Item 1");
    assert_eq!(item_label(50), "Item 50");
    assert_eq!(source_label(0), "Item (0)");
    assert_eq!(source_label(2), "Item (2)");
    assert_eq!(click_message(7), "clicked Item 7");
    assert_eq!(click_message(7), format!("clicked Item {:?}", 7usize));
}

#[test]
fn click_message_names_the_label() {
    for n in [1usize, 12, 50] {
        assert_eq!(click_message(n), format!("clicked {}", item_label(n)));
    }
}

#[test]
fn distinct_entries_have_distinct_labels() {
    let labels: Vec<String> = (1..=LIST_LEN).map(item_label).collect();
    for i in 0..labels.len() {
        for j in 0..labels.len() {
            assert_eq!(labels[i] == labels[j], i == j);
        }
    }
}

#[test]
fn list_rows_are_numbered_from_one() {
    let rows = list_entries(0..3);
    assert_eq!(rows.len(), 3);
    for (k, row) in rows.iter().enumerate() {
        assert_eq!(row.id, k);
        assert_eq!(row.number, k + 1);
        assert_eq!(row.label, format!("Item {}", k + 1));
    }
}

#[test]
fn list_window_in_the_middle() {
    let rows = list_entries(47..50);
    assert_eq!(rows.len(), 3);
    assert_eq!(rows[0].id, 47);
    assert_eq!(rows[2].number, 50);
    assert_eq!(rows[2].label, "Item 50");
}

#[test]
fn whole_list_has_fifty_rows() {
    let rows = list_entries(0..LIST_LEN);
    assert_eq!(rows.len(), 50);
    assert_eq!(rows[49].label, "Item 50");
}

#[test]
fn empty_and_reversed_ranges_give_no_rows() {
    assert!(list_entries(5..5).is_empty());
    #[allow(clippy::reversed_empty_ranges)]
    let reversed = list_entries(9..4);
    assert!(reversed.is_empty());
}

#[test]
fn swatch_row_colours() {
    let row = swatches();
    let fills: Vec<PaletteColor> = row.iter().map(|s| s.fill).collect();
    assert_eq!(
        fills,
        vec![
            PaletteColor::Red,
            PaletteColor::Green,
            PaletteColor::Blue,
            PaletteColor::Yellow,
            PaletteColor::Black,
            PaletteColor::White,
        ]
    );
    for s in &row[..5] {
        assert_eq!(s.border, PaletteColor::White);
    }
    assert_eq!(row[5].border, PaletteColor::Black);
    for s in &row {
        assert_ne!(s.border, s.fill);
    }
}
