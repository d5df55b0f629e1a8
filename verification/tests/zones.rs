use tree_view::geom::Rangef;
use tree_view::node::{DropQuarter, NodeBuilder, RowSlots, row_slots};
use tree_view::state::RowLayout;

fn quarter(min: i64, max: i64, y: i64) -> Option<DropQuarter> {
    DropQuarter::new(Rangef { min, max }, y)
}

#[test]
fn top_and_bottom_bands_are_five_pixels() {
    // row [0, 20): top band [0, 5), bottom band [15, 20)
    assert!(matches!(quarter(0, 20, 0), Some(DropQuarter::Top)));
    assert!(matches!(quarter(0, 20, 4), Some(DropQuarter::Top)));
    assert!(matches!(quarter(0, 20, 15), Some(DropQuarter::Bottom)));
    assert!(matches!(quarter(0, 20, 19), Some(DropQuarter::Bottom)));
}

#[test]
fn middle_quarters_split_at_midpoint() {
    // row [0, 20): midpoint 10
    assert!(matches!(quarter(0, 20, 5), Some(DropQuarter::MiddleTop)));
    assert!(matches!(quarter(0, 20, 9), Some(DropQuarter::MiddleTop)));
    assert!(matches!(quarter(0, 20, 10), Some(DropQuarter::MiddleBottom)));
    assert!(matches!(quarter(0, 20, 14), Some(DropQuarter::MiddleBottom)));
}

#[test]
fn pointer_outside_row_gives_no_zone() {
    assert!(quarter(0, 20, -1).is_none());
    assert!(quarter(0, 20, 20).is_none());
    assert!(quarter(0, 20, 100).is_none());
}

#[test]
fn zero_size_and_inverted_rows_give_no_zone() {
    assert!(quarter(0, 0, 0).is_none());
    assert!(quarter(5, 5, 5).is_none());
    assert!(quarter(10, 0, 5).is_none());
    assert!(quarter(10, 0, 12).is_none());
}

#[test]
fn short_row_never_classifies_a_pointer_beyond_its_bottom() {
    // a 2 px row is shorter than one edge band; only pointers inside
    // [0, 2) resolve at all
    assert!(matches!(quarter(0, 2, 0), Some(DropQuarter::Top)));
    assert!(matches!(quarter(0, 2, 1), Some(DropQuarter::Top)));
    assert!(quarter(0, 2, 2).is_none());
    assert!(quarter(0, 2, 3).is_none());
}

#[test]
fn odd_height_row_splits_below_true_middle() {
    // row [0, 21): integer midpoint 10
    assert!(matches!(quarter(0, 21, 9), Some(DropQuarter::MiddleTop)));
    assert!(matches!(quarter(0, 21, 10), Some(DropQuarter::MiddleBottom)));
}

#[test]
fn offset_row_bands_follow_the_edges() {
    // row [100, 140): bands [100, 105) and [135, 140), midpoint 120
    assert!(matches!(quarter(100, 140, 104), Some(DropQuarter::Top)));
    assert!(matches!(quarter(100, 140, 105), Some(DropQuarter::MiddleTop)));
    assert!(matches!(quarter(100, 140, 119), Some(DropQuarter::MiddleTop)));
    assert!(matches!(quarter(100, 140, 120), Some(DropQuarter::MiddleBottom)));
    assert!(matches!(quarter(100, 140, 134), Some(DropQuarter::MiddleBottom)));
    assert!(matches!(quarter(100, 140, 135), Some(DropQuarter::Bottom)));
    assert!(quarter(100, 140, 140).is_none());
}

#[test]
fn leaf_and_dir_prototypes() {
    let l = NodeBuilder::leaf(7);
    assert_eq!(l.id, 7);
    assert!(!l.is_dir);
    assert!(!l.drop_allowed);
    assert!(l.default_open);
    assert!(!l.flatten);

    let d = NodeBuilder::dir(9);
    assert_eq!(d.id, 9);
    assert!(d.is_dir);
    assert!(d.drop_allowed);
    assert!(d.default_open);
}

#[test]
fn fluent_descriptor_setters() {
    let n = NodeBuilder::dir(3)
        .flatten(true)
        .default_open(false)
        .drop_allowed(false)
        .icon()
        .closer();
    assert!(n.flatten);
    assert!(!n.default_open);
    assert!(!n.drop_allowed);
    assert!(n.has_icon);
    assert!(n.has_custom_closer);
    assert_eq!(n.id, 3);
    assert!(n.is_dir);
}

#[test]
fn slot_policy_per_layout() {
    // directory without icon
    let c = row_slots(RowLayout::Compact, true, false);
    assert_eq!(
        c,
        RowSlots { reserve_closer: true, draw_closer: true, reserve_icon: false, draw_icon: false }
    );
    // leaf with icon under CompactAlignedLabels gets an icon slot
    let c = row_slots(RowLayout::CompactAlignedLabels, false, true);
    assert_eq!(
        c,
        RowSlots { reserve_closer: false, draw_closer: false, reserve_icon: true, draw_icon: true }
    );
    // AlignedIcons always reserves the closer slot
    let c = row_slots(RowLayout::AlignedIcons, false, false);
    assert_eq!(
        c,
        RowSlots { reserve_closer: true, draw_closer: false, reserve_icon: false, draw_icon: false }
    );
    // AlignedIconsAndLabels reserves both slots for every row
    let c = row_slots(RowLayout::AlignedIconsAndLabels, false, false);
    assert_eq!(
        c,
        RowSlots { reserve_closer: true, draw_closer: false, reserve_icon: true, draw_icon: false }
    );
}
