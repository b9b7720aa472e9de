use gpui_playground::drag_drop::{drag_sources, DragDrop, DragInfo};
use gpui_playground::palette::{PaletteColor, Tint};

type Pos = (f32, f32);

#[test]
fn new_drag_info_starts_at_the_origin() {
    let info: DragInfo<Pos> = DragInfo::new(1, PaletteColor::Red);
    assert_eq!(info.ix, 1);
    assert_eq!(info.color, PaletteColor::Red);
    assert_eq!(info.position, (0.0, 0.0));
}

#[test]
fn moving_keeps_index_and_colour() {
    let info: DragInfo<Pos> = DragInfo::new(2, PaletteColor::Green);
    let moved = info.position((12.5, 40.0));
    assert_eq!(moved.ix, 2);
    assert_eq!(moved.color, PaletteColor::Green);
    assert_eq!(moved.position, (12.5, 40.0));
}

#[test]
fn preview_shows_index_at_half_opacity() {
    let info: DragInfo<Pos> = DragInfo::new(0, PaletteColor::Blue);
    assert_eq!(info.preview_label(), "Item 0");
    assert_eq!(info.preview_fill(), Tint { color: PaletteColor::Blue, opacity_percent: 50 });
}

#[test]
fn sources_are_blue_red_green() {
    let sources = drag_sources();
    assert_eq!(sources.len(), 3);
    let expected = [PaletteColor::Blue, PaletteColor::Red, PaletteColor::Green];
    for (ix, s) in sources.iter().enumerate() {
        assert_eq!(s.ix, ix);
        assert_eq!(s.color, expected[ix]);
        assert_eq!(s.label, format!("Item ({})", ix));
        assert_eq!(s.hover_fill, Tint { color: expected[ix], opacity_percent: 20 });
        let payload: DragInfo<Pos> = s.drag_info();
        assert_eq!(payload.ix, ix);
        assert_eq!(payload.color, expected[ix]);
        assert_eq!(payload.position, (0.0, 0.0));
    }
}

#[test]
fn fresh_target_is_white_and_unfilled() {
    let d: DragDrop<Pos> = DragDrop::new();
    assert!(d.drop_on.is_none());
    assert_eq!(d.target_border(), PaletteColor::White);
    assert_eq!(d.target_fill(), None);
}

#[test]
fn dropped_item_colours_the_target() {
    let mut d: DragDrop<Pos> = DragDrop::new();
    let info = DragInfo::new(1, PaletteColor::Red).position((100.0, 200.0));
    d.accept_drop(&info);
    assert_eq!(d.target_border(), PaletteColor::Red);
    assert_eq!(d.target_fill(), Some(Tint { color: PaletteColor::Red, opacity_percent: 20 }));
    let kept = d.drop_on.unwrap();
    assert_eq!(kept.ix, 1);
    assert_eq!(kept.position, (100.0, 200.0));
}

#[test]
fn last_drop_wins() {
    let mut d: DragDrop<Pos> = DragDrop::new();
    d.accept_drop(&DragInfo::new(0, PaletteColor::Blue));
    d.accept_drop(&DragInfo::new(2, PaletteColor::Green));
    assert_eq!(d.target_border(), PaletteColor::Green);
    assert_eq!(d.drop_on.unwrap().ix, 2);
    assert_eq!(d.target_fill(), Some(Tint { color: PaletteColor::Green, opacity_percent: 20 }));
}

#[test]
fn tint_new_keeps_its_parts() {
    let t = Tint::new(PaletteColor::Yellow, 35);
    assert_eq!(t.color, PaletteColor::Yellow);
    assert_eq!(t.opacity_percent, 35);
}

#[test]
fn many_drops_target_holds_the_last() {
    let mut d: DragDrop<Pos> = DragDrop::new();
    let order = [
        (0, PaletteColor::Blue),
        (1, PaletteColor::Red),
        (2, PaletteColor::Green),
        (1, PaletteColor::Red),
        (0, PaletteColor::Blue),
    ];
    for (k, (ix, color)) in order.iter().enumerate() {
        d.accept_drop(&DragInfo::new(*ix, *color).position((k as f32, 1.0)));
        assert_eq!(d.target_border(), *color);
        assert!(d.drop_on.is_some());
    }
    let last = d.drop_on.unwrap();
    assert_eq!(last.ix, 0);
    assert_eq!(last.position, (4.0, 1.0));
}
