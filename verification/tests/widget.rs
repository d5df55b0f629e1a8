use tree_view::builder::TreeViewBuilder;
use tree_view::geom::{Pos2, Rect, Vec2};
use tree_view::node::NodeBuilder;
use tree_view::state::{
    DragState, DropPosition, PointerInput, TreeViewSettings, TreeViewState,
};

fn area() -> Rect {
    Rect { min: Pos2 { x: 0, y: 0 }, max: Pos2 { x: 400, y: 600 } }
}

fn idle() -> PointerInput {
    PointerInput::idle()
}

fn pointer_at(x: i64, y: i64) -> PointerInput {
    PointerInput {
        hover_pos: Some(Pos2 { x, y }),
        latest_pos: Some(Pos2 { x, y }),
        clicked: false,
        double_clicked: false,
        drag_started: false,
        anything_dragged: false,
    }
}

fn frame<F: FnOnce(&mut TreeViewBuilder)>(
    mut state: TreeViewState,
    input: PointerInput,
    build: F,
) -> TreeViewState {
    state.input = input;
    let mut b = TreeViewBuilder::new(state, TreeViewSettings::default(), area());
    build(&mut b);
    b.into_state()
}

fn drag_of(id: u64) -> DragState {
    DragState {
        node_id: id,
        drag_row_offset: Vec2 { x: 0, y: 0 },
        drag_start_pos: Pos2 { x: 0, y: 0 },
        drag_valid: true,
    }
}

// With the default settings each row is 20 px tall; the first row spans
// [0, 20), the second [20, 40), and a directory's closer sits at
// [4, 18] x [row top, row bottom].

#[test]
fn open_directory_renders_children_and_seeds_open_state() {
    let state = frame(TreeViewState::new(), idle(), |b| {
        b.dir(1);
        b.leaf(2);
        b.close_dir();
    });
    assert_eq!(state.persistent.dir_states.get(&1).copied(), Some(true));
    assert_eq!(state.node_info.len(), 2);
    assert!(state.node_info[0].visible);
    assert_eq!(state.node_info[0].depth, 0);
    assert_eq!(state.node_info[0].parent_node_id, None);
    assert!(state.node_info[1].visible);
    assert_eq!(state.node_info[1].depth, 1);
    assert_eq!(state.node_info[1].parent_node_id, Some(1));
    assert_eq!(state.node_info[0].rect, Rect {
        min: Pos2 { x: 0, y: 0 },
        max: Pos2 { x: 400, y: 20 },
    });
}

#[test]
fn closer_click_closes_directory_and_hides_subtree() {
    // frame 1: A (default_open) with leaf B; both render
    let state = frame(TreeViewState::new(), idle(), |b| {
        b.dir(1);
        b.leaf(2);
        b.close_dir();
    });
    assert_eq!(state.persistent.dir_states.get(&1).copied(), Some(true));

    // frame 2: click inside A's closer rect [4,18] x [0,20]
    let mut click = pointer_at(10, 10);
    click.clicked = true;
    let state = frame(state, click, |b| {
        b.dir(1);
        b.leaf(2);
        b.close_dir();
    });
    assert_eq!(state.persistent.dir_states.get(&1).copied(), Some(false));
    assert_eq!(state.persistent.selected, Some(1));
    // the toggle applies within the same frame: B is already hidden
    assert!(state.node_info[0].visible);
    assert!(!state.node_info[1].visible);

    // frame 3: A stays closed without further input
    let state = frame(state, idle(), |b| {
        b.dir(1);
        b.leaf(2);
        b.close_dir();
    });
    assert_eq!(state.persistent.dir_states.get(&1).copied(), Some(false));
    assert!(!state.node_info[1].visible);
}

#[test]
fn open_state_is_seeded_exactly_once() {
    let state = frame(TreeViewState::new(), idle(), |b| {
        b.node(NodeBuilder::dir(1).default_open(false));
        b.close_dir();
    });
    assert_eq!(state.persistent.dir_states.get(&1).copied(), Some(false));

    // a later frame with a different default does not re-seed
    let state = frame(state, idle(), |b| {
        b.node(NodeBuilder::dir(1).default_open(true));
        b.close_dir();
    });
    assert_eq!(state.persistent.dir_states.get(&1).copied(), Some(false));
}

#[test]
fn closed_directory_children_are_invisible_with_empty_rect() {
    let state = frame(TreeViewState::new(), idle(), |b| {
        b.node(NodeBuilder::dir(1).default_open(false));
        b.dir(2);
        b.leaf(3);
        b.close_dir();
        b.close_dir();
    });
    assert!(state.node_info[0].visible);
    assert!(!state.node_info[1].visible);
    assert!(!state.node_info[2].visible);
    // grandchild depth still counts only open, non-flattened ancestors
    assert_eq!(state.node_info[1].depth, 0);
    assert_eq!(state.node_info[2].depth, 0);
    let nothing = state.node_info[1].rect;
    assert!(nothing.min.x > nothing.max.x);
}

#[test]
fn set_selected_is_idempotent() {
    let mut state = TreeViewState::new();
    state.input = idle();
    let mut b = TreeViewBuilder::new(state, TreeViewSettings::default(), area());
    b.set_selected(5);
    let once = b.into_state().persistent.selected;

    let mut state = TreeViewState::new();
    state.input = idle();
    let mut b = TreeViewBuilder::new(state, TreeViewSettings::default(), area());
    b.set_selected(5);
    b.set_selected(5);
    let twice = b.into_state().persistent.selected;

    assert_eq!(once, twice);
    assert_eq!(once, Some(5));
}

#[test]
fn row_click_selects_and_paints_background() {
    let mut click = pointer_at(200, 30);
    click.clicked = true;
    let state = frame(TreeViewState::new(), click, |b| {
        b.dir(1);
        b.leaf(2);
        b.close_dir();
    });
    assert_eq!(state.persistent.selected, Some(2));
    let (rect, focused) = state.selection_background.expect("selected row background");
    assert_eq!(rect, Rect { min: Pos2 { x: 0, y: 20 }, max: Pos2 { x: 400, y: 40 } });
    assert!(!focused);
}

#[test]
fn drag_starts_unconfirmed_and_confirms_after_travel() {
    let mut press = pointer_at(50, 10);
    press.drag_started = true;
    let state = frame(TreeViewState::new(), press, |b| {
        b.leaf(1);
    });
    let d = state.persistent.dragged.expect("drag state created");
    assert_eq!(d.node_id, 1);
    assert_eq!(d.drag_start_pos, Pos2 { x: 50, y: 10 });
    assert_eq!(d.drag_row_offset, Vec2 { x: -50, y: -10 });
    assert!(!d.drag_valid);

    // five pixels of travel is not enough ...
    let state = frame(state, pointer_at(55, 10), |b| {
        b.leaf(1);
    });
    assert!(!state.persistent.dragged.unwrap().drag_valid);

    // ... six pixels is
    let state = frame(state, pointer_at(56, 10), |b| {
        b.leaf(1);
    });
    assert!(state.persistent.dragged.unwrap().drag_valid);
}

#[test]
fn confirmed_drag_shows_overlay_at_pointer() {
    let mut state = TreeViewState::new();
    state.persistent.dragged = Some(drag_of(1));
    let mut input = pointer_at(100, 100);
    input.anything_dragged = true;
    let state = frame(state, input, |b| {
        b.leaf(1);
    });
    // overlay anchored at pointer + press offset (zero), sized like the row
    assert_eq!(
        state.drag_overlay,
        Some(Rect { min: Pos2 { x: 100, y: 100 }, max: Pos2 { x: 500, y: 120 } })
    );
}

#[test]
fn drop_on_middle_bottom_of_directory_targets_last() {
    // dragging leaf 2 over directory 1's MiddleBottom zone
    let mut state = TreeViewState::new();
    state.persistent.dragged = Some(drag_of(2));
    let mut input = pointer_at(50, 12);
    input.anything_dragged = true;
    let state = frame(state, input, |b| {
        b.dir(1);
        b.leaf(2);
        b.close_dir();
    });
    assert_eq!(state.drop, Some((1, DropPosition::Last)));
    assert_eq!(state.drop_result(), Some((2, 1, DropPosition::Last)));
    // closing the targeted directory repaints the marker over the whole
    // directory, down to just above the next row
    assert_eq!(
        state.drop_marker,
        Some(Rect { min: Pos2 { x: 0, y: 0 }, max: Pos2 { x: 400, y: 38 } })
    );
}

#[test]
fn self_drop_shows_marker_but_commits_nothing() {
    // dragging leaf 2 over its own row's Top zone: row [20, 40), band [20, 25)
    let mut state = TreeViewState::new();
    state.persistent.dragged = Some(drag_of(2));
    let mut input = pointer_at(50, 22);
    input.anything_dragged = true;
    let state = frame(state, input, |b| {
        b.dir(1);
        b.leaf(2);
        b.close_dir();
    });
    assert_eq!(state.drop, None);
    assert_eq!(state.drop_result(), None);
    // the Before-marker bar is still computed at the row's top edge
    assert_eq!(
        state.drop_marker,
        Some(Rect { min: Pos2 { x: 0, y: 19 }, max: Pos2 { x: 400, y: 22 } })
    );
}

#[test]
fn drop_zones_resolve_before_and_after_siblings() {
    // leaf 2 sits at [20, 40) under open directory 1; leaf 3 is dragged
    let run = |y: i64| {
        let mut state = TreeViewState::new();
        state.persistent.dragged = Some(drag_of(3));
        let mut input = pointer_at(50, y);
        input.anything_dragged = true;
        let state = frame(state, input, |b| {
            b.dir(1);
            b.leaf(2);
            b.leaf(3);
            b.close_dir();
        });
        state.drop
    };
    assert_eq!(run(22), Some((1, DropPosition::Before(2)))); // Top band
    assert_eq!(run(27), Some((1, DropPosition::Before(2)))); // MiddleTop, no drop-on
    assert_eq!(run(32), Some((1, DropPosition::After(2)))); // MiddleBottom
    assert_eq!(run(37), Some((1, DropPosition::After(2)))); // Bottom band
}

#[test]
fn drop_on_open_directory_bottom_targets_first() {
    let mut state = TreeViewState::new();
    state.persistent.dragged = Some(drag_of(2));
    let mut input = pointer_at(50, 17); // directory row [0, 20), Bottom band
    input.anything_dragged = true;
    let state = frame(state, input, |b| {
        b.dir(1);
        b.leaf(2);
        b.close_dir();
    });
    assert_eq!(state.drop, Some((1, DropPosition::First)));
}

#[test]
fn unconfirmed_drag_commits_no_drop() {
    let mut state = TreeViewState::new();
    let mut d = drag_of(2);
    d.drag_valid = false;
    // the pointer has not moved since the press, so the drag stays
    // unconfirmed through the frame
    d.drag_start_pos = Pos2 { x: 50, y: 12 };
    state.persistent.dragged = Some(d);
    let mut input = pointer_at(50, 12);
    input.anything_dragged = true;
    let state = frame(state, input, |b| {
        b.dir(1);
        b.leaf(2);
        b.close_dir();
    });
    assert_eq!(state.drop, None);
    assert_eq!(state.drop_result(), None);
}

#[test]
fn dragged_directory_forbids_drops_inside_itself() {
    // dragging directory 1; hovering its child leaf 2 commits nothing
    let mut state = TreeViewState::new();
    state.persistent.dragged = Some(drag_of(1));
    let mut input = pointer_at(50, 32); // leaf 2's row [20, 40), MiddleBottom
    input.anything_dragged = true;
    let state = frame(state, input, |b| {
        b.dir(1);
        b.leaf(2);
        b.close_dir();
    });
    assert_eq!(state.drop, None);
}

#[test]
fn flattened_directory_draws_single_connector_through_to_grandchild() {
    // open directory F(1) > flattened directory E(2) > leaf G(3), Hook style
    let state = frame(TreeViewState::new(), idle(), |b| {
        b.dir(1);
        b.node(NodeBuilder::dir(2).flatten(true));
        b.leaf(3);
        b.close_dir(); // E
        b.close_dir(); // F
    });
    // E has no row; G sits directly under F at depth 1
    assert!(state.node_info[0].visible);
    assert!(!state.node_info[1].visible);
    assert!(state.node_info[2].visible);
    assert_eq!(state.node_info[2].depth, 1);
    assert_eq!(state.node_info[2].parent_node_id, Some(2));
    // one vline from F's closer down to G's anchor, one hook tick to it
    assert_eq!(state.segments.len(), 2);
    let g_anchor_y = 30; // G's row [20, 40), label centre
    assert_eq!(state.segments[0], (Pos2 { x: 11, y: 22 }, Pos2 { x: 11, y: g_anchor_y }));
    assert_eq!(
        state.segments[1],
        (Pos2 { x: 11, y: g_anchor_y }, Pos2 { x: 38, y: g_anchor_y })
    );
}

#[test]
fn frame_results_are_rebuilt_every_frame() {
    let mut state = TreeViewState::new();
    state.drop = Some((9, DropPosition::Last));
    state.drop_marker = Some(area());
    let state = frame(state, idle(), |b| {
        b.leaf(1);
    });
    assert_eq!(state.drop, None);
    assert_eq!(state.drop_marker, None);
    assert_eq!(state.node_info.len(), 1);
    assert_eq!(state.segments.len(), 0);
}

#[test]
fn depth_counts_only_open_unflattened_ancestors() {
    let state = frame(TreeViewState::new(), idle(), |b| {
        b.dir(1); // depth 0
        b.dir(2); // depth 1
        b.node(NodeBuilder::dir(3).flatten(true)); // no row, no depth
        b.leaf(4); // depth 2: ancestors 1 and 2 count, 3 does not
        b.close_dir();
        b.close_dir();
        b.close_dir();
    });
    assert_eq!(state.node_info[0].depth, 0);
    assert_eq!(state.node_info[1].depth, 1);
    assert_eq!(state.node_info[2].depth, 2);
    assert_eq!(state.node_info[3].depth, 2);
    assert_eq!(state.node_info[3].node_id, 4);
    assert!(state.node_info[3].visible);
}

#[test]
fn root_row_top_zone_drops_inside_when_allowed() {
    // a directory at the root has no parent: the Top band falls back to
    // dropping inside it, and a leaf's Top band resolves to nothing
    let run = |build_leaf: bool, y: i64| {
        let mut state = TreeViewState::new();
        state.persistent.dragged = Some(drag_of(9));
        let mut input = pointer_at(50, y);
        input.anything_dragged = true;
        frame(state, input, |b| {
            if build_leaf {
                b.leaf(1);
            } else {
                b.dir(1);
                b.close_dir();
            }
            b.leaf(9);
        })
    };
    let state = run(false, 2); // directory row [0, 20), Top band
    assert_eq!(state.drop, Some((1, DropPosition::Last)));
    let state = run(true, 2); // leaf at root, Top band: nowhere to drop
    assert_eq!(state.drop, None);
    assert_eq!(state.drop_marker, None);
}

#[test]
fn vline_style_draws_one_segment_to_the_cursor() {
    let mut settings = TreeViewSettings::default();
    settings.vline_style = tree_view::state::VLineStyle::VLine;
    let mut state = TreeViewState::new();
    state.input = idle();
    let mut b = TreeViewBuilder::new(state, settings, area());
    b.dir(1);
    b.leaf(2);
    b.leaf(3);
    b.close_dir();
    let state = b.into_state();
    // one vertical segment from below the closer down to the cursor,
    // inset by the item spacing; no hook ticks
    assert_eq!(state.segments.len(), 1);
    assert_eq!(state.segments[0], (Pos2 { x: 11, y: 22 }, Pos2 { x: 11, y: 56 }));
}

#[test]
fn no_line_style_draws_nothing() {
    let mut settings = TreeViewSettings::default();
    settings.vline_style = tree_view::state::VLineStyle::NoLine;
    let mut state = TreeViewState::new();
    state.input = idle();
    let mut b = TreeViewBuilder::new(state, settings, area());
    b.dir(1);
    b.leaf(2);
    b.close_dir();
    let state = b.into_state();
    assert_eq!(state.segments.len(), 0);
}

#[test]
fn override_indent_replaces_ambient_indent() {
    let mut settings = TreeViewSettings::default();
    settings.override_indent = Some(50);
    let mut state = TreeViewState::new();
    state.input = idle();
    let mut b = TreeViewBuilder::new(state, settings, area());
    b.dir(1);
    b.leaf(2);
    b.close_dir();
    let state = b.into_state();
    // the leaf's anchor moves right by the override: 4 + 50 + 14 + 2
    assert_eq!(state.segments[1].1, Pos2 { x: 68, y: 30 });
}

#[test]
fn closer_state_carries_open_and_hover() {
    let c = tree_view::node::CloserState { is_open: true, is_hovered: false };
    assert!(c.is_open);
    assert!(!c.is_hovered);
}

#[test]
fn unbalanced_close_dir_is_tolerated() {
    let state = frame(TreeViewState::new(), idle(), |b| {
        b.close_dir();
        b.leaf(1);
        b.close_dir();
    });
    assert_eq!(state.node_info.len(), 1);
    assert!(state.node_info[0].visible);
}
