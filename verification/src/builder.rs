//! The per-frame tree builder: a single pass over the caller's
//! `dir` / `leaf` / `close_dir` sequence that resolves visibility and
//! indentation against the ancestor stack, lays rows out, applies
//! selection and drag interaction, resolves drop targets, and records
//! connector-line geometry.

use vstd::prelude::*;
use crate::geom::{Pos2, Vec2, Rect, in_range, cadd, csub, mid_spec, mid_point, add_coord,
    sub_coord};
use crate::node::{NodeBuilder, DropQuarter, drop_quarter_spec, RowRects, row_slots,
    row_slots_spec, layout_row, layout_row_spec};
use crate::state::{TreeViewState, TreeViewSettings, TreeViewPersistentState, DropPosition,
    DragState, NodeInfo, interact_spec, VLineStyle, resolved_open, beyond_drag_threshold,
    check_drag_threshold, set_selected_spec};

verus! {

broadcast use vstd::std_specs::hash::group_hash_axioms;

/// Height of the thin drop-marker bar, in pixels.
pub const DROP_LINE_HEIGHT: i64 = 3;

/// One currently-open ancestor directory during traversal; lives exactly
/// as long as the traversal of its subtree within one frame.
#[derive(Clone, Debug)]
pub struct DirectoryState {
    /// Id of the directory node.
    pub id: u64,
    /// Whether the directory is expanded this frame.
    pub is_open: bool,
    /// Whether dropping on this directory or any descendant is forbidden.
    pub drop_forbidden: bool,
    /// The directory row's rectangle.
    pub row_rect: Rect,
    /// The directory row's closer rectangle.
    pub icon_rect: Rect,
    /// Anchor positions of the direct children drawn so far.
    pub child_node_positions: Vec<Pos2>,
    /// Whether this directory is flattened into its parent.
    pub flattened: bool,
}

impl DirectoryState {
    pub open spec fn wf(self) -> bool {
        &&& self.row_rect.wf()
        &&& self.icon_rect.wf()
        &&& forall|i: int|
            0 <= i < self.child_node_positions@.len() ==> (
            #[trigger] self.child_node_positions@[i]).wf()
        &&& (self.is_open && !self.flattened) ==> {
            &&& self.icon_rect.min.x <= self.icon_rect.max.x
            &&& self.icon_rect.min.y <= self.icon_rect.max.y
        }
    }
}

/// The number of open, non-flattened directories on the stack: the
/// indentation depth of the next row.
pub open spec fn depth_of(s: Seq<DirectoryState>) -> nat
    decreases s.len(),
{
    if s.len() == 0 {
        0
    } else {
        depth_of(s.drop_last()) + if s.last().is_open && !s.last().flattened {
            1nat
        } else {
            0nat
        }
    }
}

/// A flattened directory contributes nothing to the depth of the rows
/// below it.
pub proof fn lemma_flattened_no_depth(s: Seq<DirectoryState>)
    requires
        s.len() > 0,
        s.last().flattened,
    ensures
        depth_of(s) == depth_of(s.drop_last()),
{
}

/// A closed directory frame contributes nothing to the depth of the rows
/// below it; an open, non-flattened one contributes one level.
pub proof fn lemma_depth_step(s: Seq<DirectoryState>)
    requires
        s.len() > 0,
    ensures
        !s.last().is_open || s.last().flattened ==> depth_of(s) == depth_of(s.drop_last()),
        s.last().is_open && !s.last().flattened ==> depth_of(s) == depth_of(s.drop_last()) + 1,
{
}

/// Whether the nearest enclosing directory is open (true at the root).
pub open spec fn parent_open_spec(s: Seq<DirectoryState>) -> bool {
    s.len() == 0 || s.last().is_open
}

/// Whether the nearest enclosing directory forbids drops.
pub open spec fn parent_forbidden_spec(s: Seq<DirectoryState>) -> bool {
    s.len() > 0 && s.last().drop_forbidden
}

/// Id of the nearest enclosing directory, flattened or not.
pub open spec fn parent_id_spec(s: Seq<DirectoryState>) -> Option<u64> {
    if s.len() == 0 {
        None
    } else {
        Some(s.last().id)
    }
}

/// Render configuration of one row.
#[derive(Clone, Copy, Debug)]
pub struct Row {
    pub id: u64,
    /// Whether dropping onto this row itself is allowed.
    pub drop_on_allowed: bool,
    /// Resolved open state (leaves count as open).
    pub is_open: bool,
    pub is_dir: bool,
    pub has_icon: bool,
    pub has_custom_closer: bool,
}

/// The drop-position table: how a drop quarter over a row resolves to a
/// target directory and position, given whether the row accepts drops,
/// is open, and has a parent. The two middle quarters prefer dropping
/// inside the row; the edge bands prefer sibling insertion.
pub open spec fn drop_position_spec(
    id: u64,
    drop_on_allowed: bool,
    is_open: bool,
    parent_id: Option<u64>,
    q: DropQuarter,
) -> Option<(u64, DropPosition)> {
    match q {
        DropQuarter::Top => match parent_id {
            Some(p) => Some((p, DropPosition::Before(id))),
            None => if drop_on_allowed {
                Some((id, DropPosition::Last))
            } else {
                None
            },
        },
        DropQuarter::MiddleTop => if drop_on_allowed {
            Some((id, DropPosition::Last))
        } else {
            match parent_id {
                Some(p) => Some((p, DropPosition::Before(id))),
                None => None,
            }
        },
        DropQuarter::MiddleBottom => if drop_on_allowed {
            Some((id, DropPosition::Last))
        } else {
            match parent_id {
                Some(p) => Some((p, DropPosition::After(id))),
                None => None,
            }
        },
        DropQuarter::Bottom => if drop_on_allowed && is_open {
            Some((id, DropPosition::First))
        } else {
            match parent_id {
                Some(p) => Some((p, DropPosition::After(id))),
                None => if drop_on_allowed {
                    Some((id, DropPosition::Last))
                } else {
                    None
                },
            }
        },
    }
}

/// The thin three-pixel marker bar centred on height `y` across the
/// row's width.
pub open spec fn bar_rect_spec(rect: Rect, y: int) -> Rect {
    Rect {
        min: Pos2 { x: rect.min.x, y: (y - 1) as i64 },
        max: Pos2 { x: rect.max.x, y: (y + 2) as i64 },
    }
}

/// The drop-marker shape for a resolved drop position over a row: a thin
/// bar at the top edge for `Before`, at the bottom edge for `First` and
/// `After`, the whole row for `Last`, nothing when there is no position.
pub open spec fn drop_marker_shape_spec(rect: Rect, pos: Option<(u64, DropPosition)>) -> Option<
    Rect,
> {
    match pos {
        None => None,
        Some((_, DropPosition::Before(_))) => Some(bar_rect_spec(rect, rect.min.y as int)),
        Some((_, DropPosition::First)) => Some(bar_rect_spec(rect, rect.max.y as int)),
        Some((_, DropPosition::After(_))) => Some(bar_rect_spec(rect, rect.max.y as int)),
        Some((_, DropPosition::Last)) => Some(rect),
    }
}

/// The drop target and marker after hovering one row's quarter `q`.
/// Nothing changes while no confirmed drag is under way or the parent
/// forbids drops. Hovering the dragged row itself computes and shows the
/// marker but never commits the target.
pub open spec fn do_drop_spec(
    s: TreeViewState,
    stack: Seq<DirectoryState>,
    cfg: Row,
    rect: Rect,
    q: DropQuarter,
) -> (Option<(u64, DropPosition)>, Option<Rect>) {
    if !s.input.anything_dragged || s.persistent.dragged is None || !s.drag_valid_spec()
        || parent_forbidden_spec(stack) {
        (s.drop, s.drop_marker)
    } else {
        let pos = drop_position_spec(cfg.id, cfg.drop_on_allowed, cfg.is_open, parent_id_spec(
            stack), q);
        let shape = drop_marker_shape_spec(rect, pos);
        if s.is_dragged_spec(cfg.id) {
            (s.drop, shape)
        } else {
            (pos, shape)
        }
    }
}

/// Hovering the dragged node's own row never commits a drop target,
/// whatever the quarter, although the marker shape is still computed and
/// shown whenever a confirmed drag could drop here at all.
pub proof fn lemma_self_drop_never_committed(
    s: TreeViewState,
    stack: Seq<DirectoryState>,
    cfg: Row,
    rect: Rect,
    q: DropQuarter,
)
    requires
        s.is_dragged_spec(cfg.id),
    ensures
        do_drop_spec(s, stack, cfg, rect, q).0 == s.drop,
        s.input.anything_dragged && s.drag_valid_spec() && !parent_forbidden_spec(stack)
            ==> do_drop_spec(s, stack, cfg, rect, q).1 == drop_marker_shape_spec(rect,
            drop_position_spec(cfg.id, cfg.drop_on_allowed, cfg.is_open, parent_id_spec(stack),
            q)),
{
}

/// The row configuration a leaf descriptor produces: leaves count as
/// open and never show a closer.
pub open spec fn leaf_row_cfg(node: NodeBuilder) -> Row {
    Row {
        id: node.id,
        drop_on_allowed: node.drop_allowed,
        is_open: true,
        is_dir: false,
        has_icon: node.has_icon,
        has_custom_closer: node.has_custom_closer,
    }
}

/// The row configuration a directory descriptor produces, with its
/// resolved open state.
pub open spec fn dir_row_cfg(node: NodeBuilder, open: bool) -> Row {
    Row {
        id: node.id,
        drop_on_allowed: node.drop_allowed,
        is_open: open,
        is_dir: true,
        has_icon: node.has_icon,
        has_custom_closer: node.has_custom_closer,
    }
}

/// Where the next row's rectangles land for this builder state.
pub open spec fn row_rects_spec(b: TreeViewBuilder, cfg: Row) -> RowRects {
    layout_row_spec(b.x_min as int, b.x_max as int, b.cursor_y as int, b.settings, row_slots_spec(
        b.settings.row_layout, cfg.is_dir, cfg.has_icon), depth_of(b.stack@))
}

/// The most recent pointer position, or the origin when none is known.
pub open spec fn latest_or_zero(input: crate::state::PointerInput) -> Pos2 {
    match input.latest_pos {
        Some(p) => p,
        None => Pos2 { x: 0, y: 0 },
    }
}

/// The selection after one row: a click on the row selects it.
pub open spec fn selected_after_row(s: TreeViewState, cfg: Row, rect: Rect) -> Option<u64> {
    if interact_spec(s.input, rect).clicked {
        Some(cfg.id)
    } else {
        s.persistent.selected
    }
}

/// The selection background after one row: the row's rectangle, tinted
/// by focus, when the row is the selected node.
pub open spec fn background_after_row(s: TreeViewState, cfg: Row, rect: Rect) -> Option<
    (Rect, bool),
> {
    if selected_after_row(s, cfg, rect) == Some(cfg.id) {
        Some((rect, s.has_focus))
    } else {
        s.selection_background
    }
}

/// The drag state after one row: a drag started on the row creates a
/// fresh unconfirmed drag anchored at the pointer; any unconfirmed drag
/// is then confirmed once the pointer has travelled past the threshold.
pub open spec fn dragged_after_row(s: TreeViewState, cfg: Row, rect: Rect) -> Option<DragState> {
    let p = latest_or_zero(s.input);
    let d0 = if interact_spec(s.input, rect).drag_started {
        Some(DragState {
            node_id: cfg.id,
            drag_row_offset: Vec2 {
                x: csub(rect.min.x as int, p.x as int) as i64,
                y: csub(rect.min.y as int, p.y as int) as i64,
            },
            drag_start_pos: p,
            drag_valid: false,
        })
    } else {
        s.persistent.dragged
    };
    match d0 {
        Some(d) => if !d.drag_valid {
            Some(DragState { drag_valid: beyond_drag_threshold(d.drag_start_pos, p), ..d })
        } else {
            Some(d)
        },
        None => None,
    }
}

/// The dragged row's overlay: a rectangle of the row's size anchored at
/// the pointer, offset by the press-to-row offset; the row itself when
/// no pointer position is known.
pub open spec fn overlay_rect_spec(rect: Rect, off: Vec2, input: crate::state::PointerInput) -> Rect {
    match input.latest_pos {
        Some(p) => {
            let ox = cadd(p.x as int, off.x as int);
            let oy = cadd(p.y as int, off.y as int);
            let w = csub(rect.max.x as int, rect.min.x as int);
            let h = csub(rect.max.y as int, rect.min.y as int);
            Rect {
                min: Pos2 { x: ox as i64, y: oy as i64 },
                max: Pos2 { x: cadd(ox, w) as i64, y: cadd(oy, h) as i64 },
            }
        },
        None => rect,
    }
}

/// The drag overlay after one row: set when this row is the dragged node
/// and the drag is confirmed, kept otherwise.
pub open spec fn overlay_after_row(s: TreeViewState, cfg: Row, rect: Rect) -> Option<Rect> {
    match dragged_after_row(s, cfg, rect) {
        Some(d) => if d.node_id == cfg.id && d.drag_valid {
            Some(overlay_rect_spec(rect, d.drag_row_offset, s.input))
        } else {
            s.drag_overlay
        },
        None => s.drag_overlay,
    }
}

/// The persistent state after one row's interaction.
pub open spec fn persistent_after_row(s: TreeViewState, cfg: Row, rect: Rect) -> TreeViewPersistentState {
    TreeViewPersistentState {
        selected: selected_after_row(s, cfg, rect),
        dragged: dragged_after_row(s, cfg, rect),
        ..s.persistent
    }
}

/// The state after one row's selection and drag handling, before drop
/// resolution.
pub open spec fn state_mid_row(s: TreeViewState, cfg: Row, rect: Rect) -> TreeViewState {
    TreeViewState {
        persistent: persistent_after_row(s, cfg, rect),
        selection_background: background_after_row(s, cfg, rect),
        drag_overlay: overlay_after_row(s, cfg, rect),
        ..s
    }
}

/// The drop target and marker after one row: resolved from the hovered
/// quarter when the pointer is over the row, untouched otherwise.
pub open spec fn drop_and_marker_after_row(
    s: TreeViewState,
    stack: Seq<DirectoryState>,
    cfg: Row,
    rect: Rect,
) -> (Option<(u64, DropPosition)>, Option<Rect>) {
    match s.input.hover_pos {
        Some(p) => match drop_quarter_spec(rect.min.y as int, rect.max.y as int, p.y as int) {
            Some(q) => do_drop_spec(s, stack, cfg, rect, q),
            None => (s.drop, s.drop_marker),
        },
        None => (s.drop, s.drop_marker),
    }
}

/// The whole state after one row.
pub open spec fn state_after_row(
    s: TreeViewState,
    stack: Seq<DirectoryState>,
    cfg: Row,
    rect: Rect,
) -> TreeViewState {
    let s1 = state_mid_row(s, cfg, rect);
    let dm = drop_and_marker_after_row(s1, stack, cfg, rect);
    TreeViewState { drop: dm.0, drop_marker: dm.1, ..s1 }
}

/// The anchor point connector lines aim at: the left centre of the
/// row's label.
pub open spec fn anchor_spec(rects: RowRects) -> Pos2 {
    Pos2 {
        x: rects.label.min.x,
        y: mid_spec(rects.label.min.y as int, rects.label.max.y as int) as i64,
    }
}

/// Two directory frames that agree on everything but their recorded
/// child anchors.
pub open spec fn same_frame_but_children(a: DirectoryState, b: DirectoryState) -> bool {
    &&& a.id == b.id
    &&& a.is_open == b.is_open
    &&& a.drop_forbidden == b.drop_forbidden
    &&& a.row_rect == b.row_rect
    &&& a.icon_rect == b.icon_rect
    &&& a.flattened == b.flattened
}

/// `post` is `pre` with `anchor` appended to the top frame's child
/// anchors; a row at the root records no anchor.
pub open spec fn stack_child_pushed(
    pre: Seq<DirectoryState>,
    post: Seq<DirectoryState>,
    anchor: Pos2,
) -> bool {
    if pre.len() == 0 {
        post == pre
    } else {
        let k = pre.len() - 1;
        &&& post.len() == pre.len()
        &&& (forall|i: int| 0 <= i < k ==> post[i] == pre[i])
        &&& same_frame_but_children(post[k], pre[k])
        &&& post[k].child_node_positions@ == pre[k].child_node_positions@.push(anchor)
    }
}

/// Everything one row changes: the interaction-driven state update, the
/// layout cursor moving to the row's bottom edge, and the row's anchor
/// recorded with the enclosing directory.
pub open spec fn row_effect(pre: TreeViewBuilder, post: TreeViewBuilder, cfg: Row) -> bool {
    let rects = row_rects_spec(pre, cfg);
    &&& post.state == state_after_row(pre.state, pre.stack@, cfg, rects.row)
    &&& post.settings == pre.settings
    &&& post.x_min == pre.x_min
    &&& post.x_max == pre.x_max
    &&& post.cursor_y == rects.row.max.y
    &&& stack_child_pushed(pre.stack@, post.stack@, anchor_spec(rects))
}

/// A directory descriptor draws a row exactly when its parent chain is
/// open and it is not flattened.
pub open spec fn dir_visible(pre: TreeViewBuilder, node: NodeBuilder) -> bool {
    parent_open_spec(pre.stack@) && !node.flatten
}

/// A leaf draws a row exactly when its parent chain is open.
pub open spec fn leaf_visible(pre: TreeViewBuilder) -> bool {
    parent_open_spec(pre.stack@)
}

pub open spec fn node_visible(pre: TreeViewBuilder, node: NodeBuilder) -> bool {
    if node.is_dir {
        dir_visible(pre, node)
    } else {
        leaf_visible(pre)
    }
}

/// The open state a directory resolves to before this frame's clicks:
/// its stored flag, or `default_open` on first encounter.
pub open spec fn dir_resolved_open(pre: TreeViewBuilder, node: NodeBuilder) -> bool {
    resolved_open(pre.state.persistent.dir_states@, node.id, node.default_open)
}

/// The rectangle recorded for a node: its row when visible, the empty
/// rectangle otherwise.
pub open spec fn node_rect(pre: TreeViewBuilder, node: NodeBuilder) -> Rect {
    if node_visible(pre, node) {
        if node.is_dir {
            row_rects_spec(pre, dir_row_cfg(node, dir_resolved_open(pre, node))).row
        } else {
            row_rects_spec(pre, leaf_row_cfg(node)).row
        }
    } else {
        Rect::nothing_spec()
    }
}

/// Whether `d` is a drag of node `id`.
pub open spec fn dragged_is(d: Option<DragState>, id: u64) -> bool {
    match d {
        Some(x) => x.node_id == id,
        None => false,
    }
}

/// A freshly pushed directory frame with no recorded children.
pub open spec fn fresh_frame(
    d: DirectoryState,
    id: u64,
    is_open: bool,
    drop_forbidden: bool,
    row_rect: Rect,
    icon_rect: Rect,
    flattened: bool,
) -> bool {
    &&& d.id == id
    &&& d.is_open == is_open
    &&& d.drop_forbidden == drop_forbidden
    &&& d.row_rect == row_rect
    &&& d.icon_rect == icon_rect
    &&& d.flattened == flattened
    &&& d.child_node_positions@.len() == 0
}

/// `post` is `pre` with one fresh frame pushed on top.
pub open spec fn stack_frame_pushed(
    pre: Seq<DirectoryState>,
    post: Seq<DirectoryState>,
    id: u64,
    is_open: bool,
    drop_forbidden: bool,
    row_rect: Rect,
    icon_rect: Rect,
    flattened: bool,
) -> bool {
    &&& post.len() == pre.len() + 1
    &&& (forall|i: int| 0 <= i < pre.len() ==> post[i] == pre[i])
    &&& fresh_frame(post[pre.len() as int], id, is_open, drop_forbidden, row_rect, icon_rect,
        flattened)
}

/// `post` is `pre` with the row's anchor recorded and then a fresh
/// frame pushed on top.
pub open spec fn stack_child_and_frame_pushed(
    pre: Seq<DirectoryState>,
    post: Seq<DirectoryState>,
    anchor: Pos2,
    id: u64,
    is_open: bool,
    drop_forbidden: bool,
    row_rect: Rect,
    icon_rect: Rect,
    flattened: bool,
) -> bool {
    &&& post.len() == pre.len() + 1
    &&& stack_child_pushed(pre, post.drop_last(), anchor)
    &&& fresh_frame(post.last(), id, is_open, drop_forbidden, row_rect, icon_rect, flattened)
}

/// The open state a directory carries after this frame's interaction: a
/// click on the closer toggles it, a double click on the row toggles it
/// again.
pub open spec fn dir_final_open(pre: TreeViewBuilder, node: NodeBuilder) -> bool {
    let open0 = dir_resolved_open(pre, node);
    let rects = row_rects_spec(pre, dir_row_cfg(node, open0));
    let closer = rects.closer.unwrap();
    let open1 = if interact_spec(pre.state.input, closer).clicked {
        !open0
    } else {
        open0
    };
    if interact_spec(pre.state.input, rects.row).double_clicked {
        !open1
    } else {
        open1
    }
}

/// Everything a leaf descriptor changes, apart from the visible-node
/// record: nothing at all under a closed parent, exactly one row
/// otherwise.
pub open spec fn leaf_effect(pre: TreeViewBuilder, post: TreeViewBuilder, node: NodeBuilder) -> bool {
    if parent_open_spec(pre.stack@) {
        row_effect(pre, post, leaf_row_cfg(node))
    } else {
        post == pre
    }
}

/// Everything a directory descriptor changes, apart from the
/// visible-node record. Under a closed parent only a closed,
/// drop-forbidden bookkeeping frame is pushed; a flattened directory
/// pushes a pass-through frame; otherwise the row is drawn and
/// interacted with, the resolved open flag is stored back, and the new
/// frame inherits `drop_forbidden` from its parent or from being the
/// dragged node itself.
pub open spec fn dir_effect(pre: TreeViewBuilder, post: TreeViewBuilder, node: NodeBuilder) -> bool {
    if !parent_open_spec(pre.stack@) {
        &&& post.state == pre.state
        &&& post.settings == pre.settings
        &&& post.x_min == pre.x_min
        &&& post.x_max == pre.x_max
        &&& post.cursor_y == pre.cursor_y
        &&& stack_frame_pushed(pre.stack@, post.stack@, node.id, false, true,
            Rect::nothing_spec(), Rect::nothing_spec(), false)
    } else if node.flatten {
        &&& post.state == pre.state
        &&& post.settings == pre.settings
        &&& post.x_min == pre.x_min
        &&& post.x_max == pre.x_max
        &&& post.cursor_y == pre.cursor_y
        &&& stack_frame_pushed(pre.stack@, post.stack@, node.id, true, parent_forbidden_spec(
            pre.stack@), Rect::nothing_spec(), Rect::nothing_spec(), true)
    } else {
        let open0 = dir_resolved_open(pre, node);
        let cfg = dir_row_cfg(node, open0);
        let rects = row_rects_spec(pre, cfg);
        let closer = rects.closer.unwrap();
        let ci = interact_spec(pre.state.input, closer);
        let open2 = dir_final_open(pre, node);
        let s_row = state_after_row(pre.state, pre.stack@, cfg, rects.row);
        &&& post.state.persistent.selected == (if ci.clicked {
            Some(node.id)
        } else {
            s_row.persistent.selected
        })
        &&& post.state.persistent.dragged == s_row.persistent.dragged
        &&& post.state.persistent.dir_states@ == pre.state.persistent.dir_states@.insert(node.id,
            open2)
        &&& post.state.drop == s_row.drop
        &&& post.state.drop_marker == s_row.drop_marker
        &&& post.state.selection_background == s_row.selection_background
        &&& post.state.drag_overlay == s_row.drag_overlay
        &&& post.state.node_info@ == pre.state.node_info@
        &&& post.state.segments@ == pre.state.segments@
        &&& post.state.input == pre.state.input
        &&& post.state.has_focus == pre.state.has_focus
        &&& post.settings == pre.settings
        &&& post.x_min == pre.x_min
        &&& post.x_max == pre.x_max
        &&& post.cursor_y == rects.row.max.y
        &&& stack_child_and_frame_pushed(pre.stack@, post.stack@, anchor_spec(rects), node.id,
            open2, parent_forbidden_spec(pre.stack@) || dragged_is(s_row.persistent.dragged,
                node.id), rects.row, closer, false)
    }
}

/// The visible-node record one descriptor appends.
pub open spec fn node_info_entry(pre: TreeViewBuilder, node: NodeBuilder) -> NodeInfo {
    NodeInfo {
        depth: depth_of(pre.stack@) as usize,
        node_id: node.id,
        visible: node_visible(pre, node),
        rect: node_rect(pre, node),
        parent_node_id: parent_id_spec(pre.stack@),
    }
}

/// Everything one `node` call changes: the leaf or directory effect,
/// plus one appended visible-node record whose depth is the number of
/// open, non-flattened ancestors.
pub open spec fn node_effect(pre: TreeViewBuilder, post: TreeViewBuilder, node: NodeBuilder) -> bool {
    let stripped = TreeViewBuilder {
        state: TreeViewState { node_info: pre.state.node_info, ..post.state },
        ..post
    };
    &&& if node.is_dir {
        dir_effect(pre, stripped, node)
    } else {
        leaf_effect(pre, stripped, node)
    }
    &&& post.state.node_info@ == pre.state.node_info@.push(node_info_entry(pre, node))
    &&& post.state.node_info@.last().depth as nat == depth_of(pre.stack@)
}

/// The descriptor `NodeBuilder::leaf` produces.
pub open spec fn leaf_node_spec(id: u64) -> NodeBuilder {
    NodeBuilder {
        id,
        is_dir: false,
        flatten: false,
        is_open: false,
        default_open: true,
        drop_allowed: false,
        indent: 0,
        has_icon: false,
        has_custom_closer: false,
    }
}

/// The descriptor `NodeBuilder::dir` produces.
pub open spec fn dir_node_spec(id: u64) -> NodeBuilder {
    NodeBuilder {
        id,
        is_dir: true,
        flatten: false,
        is_open: false,
        default_open: true,
        drop_allowed: true,
        indent: 0,
        has_icon: false,
        has_custom_closer: false,
    }
}

/// The whole-directory drop marker drawn when the closing directory is
/// the current `Last` target: its row stretched down to just above the
/// next row.
pub open spec fn dir_marker_rect_spec(row_rect: Rect, cursor_y: int, settings: TreeViewSettings) -> Rect {
    Rect {
        min: row_rect.min,
        max: Pos2 {
            x: row_rect.max.x,
            y: csub(cursor_y, (settings.item_spacing_y as int) / 2) as i64,
        },
    }
}

/// The connector segments a closing open directory draws: nothing for
/// `NoLine`; one vertical segment from below its closer down to the
/// current cursor for `VLine`; for `Hook`, a vertical segment down to
/// the last child's anchor plus one horizontal tick per child anchor.
pub open spec fn vline_segments_spec(
    d: DirectoryState,
    cursor_y: int,
    settings: TreeViewSettings,
) -> Seq<(Pos2, Pos2)> {
    let topx = mid_spec(d.icon_rect.min.x as int, d.icon_rect.max.x as int);
    let topy = cadd(d.icon_rect.max.y as int, 2);
    let top = Pos2 { x: topx as i64, y: topy as i64 };
    match settings.vline_style {
        VLineStyle::NoLine => Seq::<(Pos2, Pos2)>::empty(),
        VLineStyle::VLine => seq![
            (top, Pos2 { x: top.x, y: csub(cursor_y, settings.item_spacing_y as int) as i64 }),
        ],
        VLineStyle::Hook => {
            let boty = if d.child_node_positions@.len() > 0 {
                d.child_node_positions@.last().y as int
            } else {
                topy
            };
            seq![(top, Pos2 { x: top.x, y: boty as i64 })] + Seq::new(
                d.child_node_positions@.len(),
                |i: int|
                    (
                        Pos2 { x: top.x, y: d.child_node_positions@[i].y },
                        Pos2 {
                            x: csub(d.child_node_positions@[i].x as int, 2) as i64,
                            y: d.child_node_positions@[i].y,
                        },
                    ),
            )
        },
    }
}

/// The stack after closing the top directory: it is popped, and a
/// flattened directory splices its recorded child anchors into its
/// parent so connector hooks still reach them.
pub open spec fn stack_after_close(
    pre: Seq<DirectoryState>,
    post: Seq<DirectoryState>,
    d: DirectoryState,
) -> bool {
    let rest = pre.drop_last();
    if d.flattened && rest.len() > 0 {
        let k = rest.len() - 1;
        &&& post.len() == rest.len()
        &&& (forall|i: int| 0 <= i < k ==> post[i] == rest[i])
        &&& same_frame_but_children(post[k], rest[k])
        &&& post[k].child_node_positions@ == rest[k].child_node_positions@
            + d.child_node_positions@
    } else {
        post == rest
    }
}

/// Everything `close_dir` changes: with an empty stack nothing at all;
/// otherwise the top directory is popped, the whole-directory drop
/// marker is drawn when that directory is the current `Last` target,
/// an open non-flattened directory draws its connector segments, and a
/// flattened one hands its child anchors to its parent.
pub open spec fn close_dir_effect(pre: TreeViewBuilder, post: TreeViewBuilder) -> bool {
    if pre.stack@.len() == 0 {
        &&& post.state == pre.state
        &&& post.settings == pre.settings
        &&& post.x_min == pre.x_min
        &&& post.x_max == pre.x_max
        &&& post.cursor_y == pre.cursor_y
        &&& post.stack@ == pre.stack@
    } else {
        let d = pre.stack@.last();
        let marker1 = if pre.state.drop == Some((d.id, DropPosition::Last)) {
            Some(dir_marker_rect_spec(d.row_rect, pre.cursor_y as int, pre.settings))
        } else {
            pre.state.drop_marker
        };
        let segs1 = if d.is_open && !d.flattened {
            pre.state.segments@ + vline_segments_spec(d, pre.cursor_y as int, pre.settings)
        } else {
            pre.state.segments@
        };
        &&& post.state.persistent == pre.state.persistent
        &&& post.state.drop == pre.state.drop
        &&& post.state.node_info@ == pre.state.node_info@
        &&& post.state.drop_marker == marker1
        &&& post.state.selection_background == pre.state.selection_background
        &&& post.state.segments@ == segs1
        &&& post.state.drag_overlay == pre.state.drag_overlay
        &&& post.state.input == pre.state.input
        &&& post.state.has_focus == pre.state.has_focus
        &&& post.settings == pre.settings
        &&& post.x_min == pre.x_min
        &&& post.x_max == pre.x_max
        &&& post.cursor_y == pre.cursor_y
        &&& stack_after_close(pre.stack@, post.stack@, d)
    }
}

/// The lower-middle quarter resolves per the drop table: a row that
/// accepts drops takes the drop itself, at the end; otherwise the drop
/// lands after the row in its parent, and nowhere at the root.
pub proof fn lemma_middle_bottom_resolution(id: u64, is_open: bool, parent_id: Option<u64>)
    ensures
        drop_position_spec(id, true, is_open, parent_id, DropQuarter::MiddleBottom) == Some(
            (id, DropPosition::Last)),
        parent_id matches Some(p) ==> drop_position_spec(id, false, is_open, parent_id,
            DropQuarter::MiddleBottom) == Some((p, DropPosition::After(id))),
        parent_id is None ==> drop_position_spec(id, false, is_open, parent_id,
            DropQuarter::MiddleBottom) is None,
{
}

/// A confirmed drag of another node over the lower-middle quarter of a
/// row that accepts drops commits the row itself as the target, at
/// position `Last`, and shows the whole-row marker.
pub proof fn lemma_drop_middle_bottom_commits_last(
    s: TreeViewState,
    stack: Seq<DirectoryState>,
    cfg: Row,
    rect: Rect,
)
    requires
        s.input.anything_dragged,
        s.persistent.dragged is Some,
        s.drag_valid_spec(),
        !parent_forbidden_spec(stack),
        !s.is_dragged_spec(cfg.id),
        cfg.drop_on_allowed,
    ensures
        do_drop_spec(s, stack, cfg, rect, DropQuarter::MiddleBottom).0 == Some(
            (cfg.id, DropPosition::Last)),
        do_drop_spec(s, stack, cfg, rect, DropQuarter::MiddleBottom).1 == Some(rect),
{
}

/// Dragging a row over its own top band under a parent computes the
/// thin `Before` bar at the row's top edge — visual feedback only, the
/// target is never committed.
pub proof fn lemma_self_drop_top_shows_before_marker(
    s: TreeViewState,
    stack: Seq<DirectoryState>,
    cfg: Row,
    rect: Rect,
)
    requires
        s.input.anything_dragged,
        s.persistent.dragged is Some,
        s.drag_valid_spec(),
        !parent_forbidden_spec(stack),
        s.is_dragged_spec(cfg.id),
        stack.len() > 0,
    ensures
        do_drop_spec(s, stack, cfg, rect, DropQuarter::Top).0 == s.drop,
        do_drop_spec(s, stack, cfg, rect, DropQuarter::Top).1 == Some(bar_rect_spec(rect,
            rect.min.y as int)),
{
}

/// The builder that walks the caller's node sequence for one frame.
pub struct TreeViewBuilder {
    /// The tree state being read and rebuilt this frame.
    pub state: TreeViewState,
    /// The stack of enclosing directories at the current point of the
    /// traversal.
    pub stack: Vec<DirectoryState>,
    pub settings: TreeViewSettings,
    /// Left edge of the tree area.
    pub x_min: i64,
    /// Right edge of the tree area.
    pub x_max: i64,
    /// Top edge of the next row.
    pub cursor_y: i64,
}

impl TreeViewBuilder {
    pub open spec fn wf(self) -> bool {
        &&& self.settings.wf()
        &&& self.state.wf()
        &&& in_range(self.x_min)
        &&& in_range(self.x_max)
        &&& in_range(self.cursor_y)
        &&& forall|i: int| 0 <= i < self.stack@.len() ==> (#[trigger] self.stack@[i]).wf()
        &&& forall|i: int, j: int|
            0 <= i < j < self.stack@.len() && !(#[trigger] self.stack@[i]).is_open ==> !(
            #[trigger] self.stack@[j]).is_open
        &&& forall|i: int, j: int|
            0 <= i < j < self.stack@.len() && (#[trigger] self.stack@[i]).drop_forbidden ==> (
            #[trigger] self.stack@[j]).drop_forbidden
    }

    /// Starts a frame: per-frame results of the previous frame are
    /// cleared, the persistent core and this frame's input carry over,
    /// and rows will be laid out inside `area` from its top edge down.
    pub fn new(state: TreeViewState, settings: TreeViewSettings, area: Rect) -> (r:
        TreeViewBuilder)
        requires
            state.wf(),
            settings.wf(),
            area.wf(),
        ensures
            r.wf(),
            r.state.persistent == state.persistent,
            r.state.input == state.input,
            r.state.has_focus == state.has_focus,
            r.state.drop is None,
            r.state.node_info@.len() == 0,
            r.state.drop_marker is None,
            r.state.selection_background is None,
            r.state.segments@.len() == 0,
            r.state.drag_overlay is None,
            r.stack@.len() == 0,
            r.settings == settings,
            r.x_min == area.min.x,
            r.x_max == area.max.x,
            r.cursor_y == area.min.y,
    {
        TreeViewBuilder {
            state: TreeViewState {
                drop: None,
                node_info: Vec::new(),
                drop_marker: None,
                selection_background: None,
                segments: Vec::new(),
                drag_overlay: None,
                ..state
            },
            stack: Vec::new(),
            settings,
            x_min: area.min.x,
            x_max: area.max.x,
            cursor_y: area.min.y,
        }
    }

    /// Hands the finished frame's state back to the caller.
    pub fn into_state(self) -> (r: TreeViewState)
        ensures
            r == self.state,
    {
        self.state
    }

    /// Sets the selected node; everything else is untouched.
    pub fn set_selected(&mut self, id: u64)
        requires
            old(self).wf(),
        ensures
            final(self).wf(),
            *final(self) == (TreeViewBuilder {
                state: TreeViewState {
                    persistent: set_selected_spec(old(self).state.persistent, id),
                    ..old(self).state
                },
                ..*old(self)
            }),
    {
        self.state.persistent.selected = Some(id);
    }

    /// The indentation depth of the next row: the number of open,
    /// non-flattened directories on the stack.
    fn get_indent_level(&self) -> (r: usize)
        ensures
            r as nat == depth_of(self.stack@),
    {
        let mut count: usize = 0;
        let mut i: usize = 0;
        while i < self.stack.len()
            invariant
                0 <= i <= self.stack@.len(),
                count <= i,
                count as nat == depth_of(self.stack@.subrange(0, i as int)),
            decreases self.stack@.len() - i,
        {
            proof {
                assert(self.stack@.subrange(0, i as int + 1).drop_last() =~= self.stack@.subrange(
                    0, i as int));
                assert(self.stack@.subrange(0, i as int + 1).last() == self.stack@[i as int]);
            }
            let d = &self.stack[i];
            if d.is_open && !d.flattened {
                count = count + 1;
            }
            i = i + 1;
        }
        proof {
            assert(self.stack@.subrange(0, self.stack@.len() as int) =~= self.stack@);
        }
        count
    }

    /// Whether the nearest enclosing directory is open; nodes at the
    /// root count as having an open parent.
    pub fn parent_dir_is_open(&self) -> (r: bool)
        ensures
            r == parent_open_spec(self.stack@),
    {
        if self.stack.len() == 0 {
            true
        } else {
            let d = &self.stack[self.stack.len() - 1];
            d.is_open
        }
    }

    /// Whether the nearest enclosing directory forbids drops.
    pub fn parent_dir_drop_forbidden(&self) -> (r: bool)
        ensures
            r == parent_forbidden_spec(self.stack@),
    {
        if self.stack.len() == 0 {
            false
        } else {
            let d = &self.stack[self.stack.len() - 1];
            d.drop_forbidden
        }
    }

    /// Id of the nearest enclosing directory.
    fn parent_id(&self) -> (r: Option<u64>)
        ensures
            r == parent_id_spec(self.stack@),
    {
        if self.stack.len() == 0 {
            None
        } else {
            let d = &self.stack[self.stack.len() - 1];
            Some(d.id)
        }
    }

    /// Resolves the drop position for a quarter over the given row,
    /// following the drop-position table.
    fn get_drop_position(&self, cfg: &Row, drop_quarter: &DropQuarter) -> (r: Option<
        (u64, DropPosition),
    >)
        ensures
            r == drop_position_spec(cfg.id, cfg.drop_on_allowed, cfg.is_open, parent_id_spec(
                self.stack@), *drop_quarter),
    {
        let parent = self.parent_id();
        match drop_quarter {
            DropQuarter::Top => {
                match parent {
                    Some(p) => Some((p, DropPosition::Before(cfg.id))),
                    None => if cfg.drop_on_allowed {
                        Some((cfg.id, DropPosition::Last))
                    } else {
                        None
                    },
                }
            },
            DropQuarter::MiddleTop => {
                if cfg.drop_on_allowed {
                    Some((cfg.id, DropPosition::Last))
                } else {
                    match parent {
                        Some(p) => Some((p, DropPosition::Before(cfg.id))),
                        None => None,
                    }
                }
            },
            DropQuarter::MiddleBottom => {
                if cfg.drop_on_allowed {
                    Some((cfg.id, DropPosition::Last))
                } else {
                    match parent {
                        Some(p) => Some((p, DropPosition::After(cfg.id))),
                        None => None,
                    }
                }
            },
            DropQuarter::Bottom => {
                if cfg.drop_on_allowed && cfg.is_open {
                    Some((cfg.id, DropPosition::First))
                } else {
                    match parent {
                        Some(p) => Some((p, DropPosition::After(cfg.id))),
                        None => if cfg.drop_on_allowed {
                            Some((cfg.id, DropPosition::Last))
                        } else {
                            None
                        },
                    }
                }
            },
        }
    }

    /// Computes the marker shape for a drop position over a row.
    fn drop_marker_shape(rect: &Rect, drop_position: &Option<(u64, DropPosition)>) -> (r: Option<
        Rect,
    >)
        requires
            rect.wf(),
        ensures
            r == drop_marker_shape_spec(*rect, *drop_position),
    {
        match drop_position {
            None => None,
            Some((_, DropPosition::Before(_))) => Some(Rect {
                min: Pos2 { x: rect.min.x, y: rect.min.y - 1 },
                max: Pos2 { x: rect.max.x, y: rect.min.y + 2 },
            }),
            Some((_, DropPosition::First)) => Some(Rect {
                min: Pos2 { x: rect.min.x, y: rect.max.y - 1 },
                max: Pos2 { x: rect.max.x, y: rect.max.y + 2 },
            }),
            Some((_, DropPosition::After(_))) => Some(Rect {
                min: Pos2 { x: rect.min.x, y: rect.max.y - 1 },
                max: Pos2 { x: rect.max.x, y: rect.max.y + 2 },
            }),
            Some((_, DropPosition::Last)) => Some(*rect),
        }
    }

    /// Resolves and commits this frame's drop target and marker for one
    /// hovered row, per `do_drop_spec`.
    fn do_drop(&mut self, cfg: &Row, row_rect: &Rect, drop_quarter: DropQuarter)
        requires
            old(self).wf(),
            row_rect.wf(),
        ensures
            final(self).wf(),
            *final(self) == (TreeViewBuilder {
                state: TreeViewState {
                    drop: do_drop_spec(old(self).state, old(self).stack@, *cfg, *row_rect,
                        drop_quarter).0,
                    drop_marker: do_drop_spec(old(self).state, old(self).stack@, *cfg, *row_rect,
                        drop_quarter).1,
                    ..old(self).state
                },
                ..*old(self)
            }),
    {
        if !self.state.input.anything_dragged {
            return ;
        }
        let dragged_none = match &self.state.persistent.dragged {
            Some(_) => false,
            None => true,
        };
        if dragged_none {
            return ;
        }
        if !self.state.drag_valid() {
            return ;
        }
        if self.parent_dir_drop_forbidden() {
            return ;
        }
        let drop_position = self.get_drop_position(cfg, &drop_quarter);
        let shape = Self::drop_marker_shape(row_rect, &drop_position);
        if self.state.is_dragged(cfg.id) {
            // Dropping a node onto its own row is a no-op; show the
            // marker for feedback but commit nothing.
            self.state.drop_marker = shape;
            return ;
        }
        self.state.drop = drop_position;
        self.state.drop_marker = shape;
    }

    /// The overlay rectangle for the dragged row.
    fn overlay_rect(rect: &Rect, off: Vec2, input: &crate::state::PointerInput) -> (r: Rect)
        requires
            rect.wf(),
            off.wf(),
            input.wf(),
        ensures
            r == overlay_rect_spec(*rect, off, *input),
    {
        match &input.latest_pos {
            Some(p) => {
                let ox = add_coord(p.x, off.x);
                let oy = add_coord(p.y, off.y);
                let w = sub_coord(rect.max.x, rect.min.x);
                let h = sub_coord(rect.max.y, rect.min.y);
                Rect {
                    min: Pos2 { x: ox, y: oy },
                    max: Pos2 { x: add_coord(ox, w), y: add_coord(oy, h) },
                }
            },
            None => *rect,
        }
    }

    /// Records a drawn row's anchor with the enclosing directory, for
    /// connector lines.
    fn push_child_node_position(&mut self, pos: Pos2)
        requires
            old(self).wf(),
            pos.wf(),
        ensures
            final(self).wf(),
            stack_child_pushed(old(self).stack@, final(self).stack@, pos),
            final(self).state == old(self).state,
            final(self).settings == old(self).settings,
            final(self).x_min == old(self).x_min,
            final(self).x_max == old(self).x_max,
            final(self).cursor_y == old(self).cursor_y,
    {
        let n = self.stack.len();
        if n > 0 {
            let mut d = self.stack.pop().unwrap();
            d.child_node_positions.push(pos);
            self.stack.push(d);
            proof {
                let pres = old(self).stack@;
                let posts = self.stack@;
                assert(posts =~= pres.subrange(0, pres.len() - 1).push(d));
                assert forall|i: int| 0 <= i < pres.len() - 1 implies posts[i] == pres[i] by {
                    assert(posts[i] == pres.subrange(0, pres.len() - 1)[i]);
                }
                assert(same_frame_but_children(posts[pres.len() - 1], pres[pres.len() - 1]));
                assert forall|i: int| 0 <= i < posts.len() implies (#[trigger] posts[i]).wf() by {
                    if i < pres.len() - 1 {
                        assert(posts[i] == pres[i]);
                    } else {
                        let prev = pres[pres.len() - 1];
                        assert(forall|j: int|
                            0 <= j < prev.child_node_positions@.len() ==> d.child_node_positions@[j]
                                == (#[trigger] prev.child_node_positions@[j]));
                    }
                }
                assert forall|i: int, j: int|
                    0 <= i < j < posts.len() && !(#[trigger] posts[i]).is_open implies !(
                #[trigger] posts[j]).is_open by {
                    assert(posts[i].is_open == pres[i].is_open);
                    assert(posts[j].is_open == pres[j].is_open);
                }
                assert forall|i: int, j: int|
                    0 <= i < j < posts.len() && (#[trigger] posts[i]).drop_forbidden implies (
                #[trigger] posts[j]).drop_forbidden by {
                    assert(posts[i].drop_forbidden == pres[i].drop_forbidden);
                    assert(posts[j].drop_forbidden == pres[j].drop_forbidden);
                }
            }
        }
    }

    /// Lays out and handles one row: selection, drag start and
    /// confirmation, overlay, drop resolution, and the row's anchor.
    /// Returns the row's rectangle and the closer's, when one is drawn.
    #[verifier::rlimit(100)]
    fn row(&mut self, cfg: &Row) -> (r: (Rect, Option<Rect>))
        requires
            old(self).wf(),
        ensures
            final(self).wf(),
            row_effect(*old(self), *final(self), *cfg),
            r.0 == row_rects_spec(*old(self), *cfg).row,
            r.1 == row_rects_spec(*old(self), *cfg).closer,
            r.0.wf(),
            r.0.min.y <= r.0.max.y,
            match r.1 {
                Some(c) => c.wf() && c.min.x <= c.max.x && c.min.y <= c.max.y,
                None => true,
            },
    {
        let slots = row_slots(self.settings.row_layout, cfg.is_dir, cfg.has_icon);
        let depth = self.get_indent_level();
        let rects = layout_row(self.x_min, self.x_max, self.cursor_y, &self.settings, slots,
            depth);
        let row_rect = rects.row;

        let row_interaction = self.state.interact(&row_rect);
        if row_interaction.clicked {
            self.state.persistent.selected = Some(cfg.id);
        }
        if self.state.is_selected(cfg.id) {
            self.state.selection_background = Some((row_rect, self.state.has_focus));
        }
        if row_interaction.drag_started {
            let p = match &self.state.input.latest_pos {
                Some(q) => *q,
                None => Pos2 { x: 0, y: 0 },
            };
            self.state.persistent.dragged = Some(DragState {
                node_id: cfg.id,
                drag_row_offset: Vec2 {
                    x: sub_coord(row_rect.min.x, p.x),
                    y: sub_coord(row_rect.min.y, p.y),
                },
                drag_start_pos: p,
                drag_valid: false,
            });
        }
        let dragged0 = self.state.persistent.dragged;
        match dragged0 {
            Some(d) => {
                let p = match &self.state.input.latest_pos {
                    Some(q) => *q,
                    None => Pos2 { x: 0, y: 0 },
                };
                let d1 = if !d.drag_valid {
                    DragState { drag_valid: check_drag_threshold(d.drag_start_pos, p), ..d }
                } else {
                    d
                };
                self.state.persistent.dragged = Some(d1);
                if d1.node_id == cfg.id && d1.drag_valid {
                    self.state.drag_overlay = Some(Self::overlay_rect(&row_rect,
                        d1.drag_row_offset, &self.state.input));
                }
            },
            None => {},
        }
        match &self.state.input.hover_pos {
            Some(p) => {
                let hy = p.y;
                match DropQuarter::new(row_rect.y_range(), hy) {
                    Some(q) => self.do_drop(cfg, &row_rect, q),
                    None => {},
                }
            },
            None => {},
        }
        let anchor = Pos2 {
            x: rects.label.min.x,
            y: mid_point(rects.label.min.y, rects.label.max.y),
        };
        self.push_child_node_position(anchor);
        self.cursor_y = row_rect.max.y;
        (row_rect, rects.closer)
    }

    /// Handles one leaf descriptor: nothing under a closed parent, one
    /// row otherwise.
    fn leaf_internal(&mut self, node: NodeBuilder) -> (r: Option<Rect>)
        requires
            old(self).wf(),
        ensures
            final(self).wf(),
            leaf_effect(*old(self), *final(self), node),
            r == (if leaf_visible(*old(self)) {
                Some(row_rects_spec(*old(self), leaf_row_cfg(node)).row)
            } else {
                None::<Rect>
            }),
    {
        if !self.parent_dir_is_open() {
            return None;
        }
        let mut node = node;
        node.set_is_open(true);
        let depth = self.get_indent_level();
        node.set_indent(depth);
        let cfg = Row {
            id: node.id,
            drop_on_allowed: node.drop_allowed,
            is_open: node.is_open,
            is_dir: false,
            has_icon: node.has_icon,
            has_custom_closer: node.has_custom_closer,
        };
        let (row_rect, _closer) = self.row(&cfg);
        Some(row_rect)
    }

    /// Handles one directory descriptor: a bookkeeping frame under a
    /// closed parent, a pass-through frame when flattened, otherwise a
    /// drawn row whose closer and double-click interaction resolve the
    /// stored open flag.
    #[verifier::rlimit(100)]
    fn dir_internal(&mut self, node: NodeBuilder) -> (r: Option<Rect>)
        requires
            old(self).wf(),
        ensures
            final(self).wf(),
            dir_effect(*old(self), *final(self), node),
            r == (if dir_visible(*old(self), node) {
                Some(row_rects_spec(*old(self), dir_row_cfg(node, dir_resolved_open(*old(self),
                    node))).row)
            } else {
                None::<Rect>
            }),
    {
        if !self.parent_dir_is_open() {
            self.stack.push(DirectoryState {
                id: node.id,
                is_open: false,
                drop_forbidden: true,
                row_rect: Rect::nothing(),
                icon_rect: Rect::nothing(),
                child_node_positions: Vec::new(),
                flattened: false,
            });
            proof {
                assert(self.stack@.drop_last() =~= old(self).stack@);
            }
            return None;
        }
        if node.flatten {
            let forb = self.parent_dir_drop_forbidden();
            self.stack.push(DirectoryState {
                id: node.id,
                is_open: true,
                drop_forbidden: forb,
                row_rect: Rect::nothing(),
                icon_rect: Rect::nothing(),
                child_node_positions: Vec::new(),
                flattened: true,
            });
            proof {
                assert(self.stack@.drop_last() =~= old(self).stack@);
                assert forall|i: int| 0 <= i < old(self).stack@.len() implies (
                #[trigger] old(self).stack@[i]).is_open by {
                    if !old(self).stack@[i].is_open {
                        assert(!old(self).stack@[old(self).stack@.len() - 1].is_open);
                    }
                }
            }
            return None;
        }
        let ghost node0 = node;
        let open0 = match self.state.persistent.dir_states.get(&node.id) {
            Some(b) => *b,
            None => node.default_open,
        };
        let mut node = node;
        node.set_is_open(open0);
        let depth = self.get_indent_level();
        node.set_indent(depth);
        let cfg = Row {
            id: node.id,
            drop_on_allowed: node.drop_allowed,
            is_open: node.is_open,
            is_dir: true,
            has_icon: node.has_icon,
            has_custom_closer: node.has_custom_closer,
        };
        let (row_rect, closer_opt) = self.row(&cfg);
        let closer_rect = match closer_opt {
            Some(c) => c,
            None => {
                proof {
                    assert(false);
                }
                Rect::nothing()
            },
        };
        let closer_interaction = self.state.interact(&closer_rect);
        let mut open = open0;
        if closer_interaction.clicked {
            open = !open;
            self.state.persistent.selected = Some(node.id);
        }
        let row_interaction = self.state.interact(&row_rect);
        if row_interaction.double_clicked {
            open = !open;
        }
        self.state.persistent.dir_states.insert(node.id, open);
        let forb = self.parent_dir_drop_forbidden() || self.state.is_dragged(node.id);
        let ghost mid_stack = self.stack@;
        self.stack.push(DirectoryState {
            id: node.id,
            is_open: open,
            drop_forbidden: forb,
            row_rect,
            icon_rect: closer_rect,
            child_node_positions: Vec::new(),
            flattened: false,
        });
        proof {
            let pres = old(self).stack@;
            let posts = self.stack@;
            assert(posts.drop_last() =~= mid_stack);
            assert(stack_child_pushed(pres, mid_stack, anchor_spec(row_rects_spec(*old(self),
                cfg))));
            if pres.len() > 0 {
                assert(same_frame_but_children(mid_stack[pres.len() - 1], pres[pres.len() - 1]));
            }
            assert(parent_forbidden_spec(mid_stack) == parent_forbidden_spec(pres));
            // every pre-existing frame is open (the parent is open and the
            // open flag is monotone down the stack), so pushing any frame
            // keeps the open-monotone invariant
            assert forall|i: int| 0 <= i < pres.len() implies (#[trigger] pres[i]).is_open by {
                if !pres[i].is_open {
                    assert(!pres[pres.len() - 1].is_open);
                }
            }
            assert forall|i: int| 0 <= i < posts.len() - 1 implies (
            #[trigger] posts[i]).is_open by {
                assert(posts[i] == mid_stack[i]);
                if i < pres.len() - 1 {
                    assert(mid_stack[i] == pres[i]);
                }
            }
            assert forall|i: int, j: int|
                0 <= i < j < posts.len() && (#[trigger] posts[i]).drop_forbidden implies (
            #[trigger] posts[j]).drop_forbidden by {
                if j < posts.len() - 1 {
                    assert(mid_stack[i].drop_forbidden ==> mid_stack[j].drop_forbidden);
                } else {
                    assert(mid_stack[i].drop_forbidden ==> parent_forbidden_spec(mid_stack));
                }
            }
        }
        Some(row_rect)
    }

    /// Adds one node, leaf or directory, to the tree and records its
    /// visible-node entry.
    pub fn node(&mut self, node: NodeBuilder)
        requires
            old(self).wf(),
        ensures
            final(self).wf(),
            node_effect(*old(self), *final(self), node),
    {
        let parent_node_id = self.parent_id();
        let depth = self.get_indent_level();
        let node_id = node.id;
        let rect_opt = if node.is_dir {
            self.dir_internal(node)
        } else {
            self.leaf_internal(node)
        };
        let (visible, rect) = match rect_opt {
            Some(r) => (true, r),
            None => (false, Rect::nothing()),
        };
        self.state.node_info.push(NodeInfo { depth, node_id, visible, rect, parent_node_id });
    }

    /// Adds a leaf with the default leaf descriptor.
    pub fn leaf(&mut self, id: u64)
        requires
            old(self).wf(),
        ensures
            final(self).wf(),
            node_effect(*old(self), *final(self), leaf_node_spec(id)),
    {
        let node = NodeBuilder::leaf(id);
        self.node(node);
    }

    /// Adds a directory with the default directory descriptor; it must
    /// later be closed with `close_dir`.
    pub fn dir(&mut self, id: u64)
        requires
            old(self).wf(),
        ensures
            final(self).wf(),
            node_effect(*old(self), *final(self), dir_node_spec(id)),
    {
        let node = NodeBuilder::dir(id);
        self.node(node);
    }

    /// Closes the current directory: pops its frame, draws its
    /// whole-directory drop marker and connector segments when due, and
    /// splices a flattened directory's child anchors into its parent.
    /// A close with no open directory is a no-op.
    #[verifier::rlimit(100)]
    pub fn close_dir(&mut self)
        requires
            old(self).wf(),
        ensures
            final(self).wf(),
            close_dir_effect(*old(self), *final(self)),
    {
        let d = match self.stack.pop() {
            Some(d) => d,
            None => {
                return ;
            },
        };
        let is_last_target = match &self.state.drop {
            Some((p, DropPosition::Last)) => *p == d.id,
            _ => false,
        };
        if is_last_target {
            let half = (self.settings.item_spacing_y as u64 / 2) as i64;
            let bottom = sub_coord(self.cursor_y, half);
            self.state.drop_marker = Some(Rect {
                min: d.row_rect.min,
                max: Pos2 { x: d.row_rect.max.x, y: bottom },
            });
        }
        if d.is_open && !d.flattened {
            self.draw_vline(&d);
        }
        if d.flattened {
            if self.stack.len() > 0 {
                let ghost mid_stack = self.stack@;
                let mut parentf = self.stack.pop().unwrap();
                let mut kids = d.child_node_positions;
                parentf.child_node_positions.append(&mut kids);
                self.stack.push(parentf);
                proof {
                    assert(self.stack@ =~= mid_stack.subrange(0, mid_stack.len() - 1).push(
                        self.stack@.last()));
                    assert forall|i: int| 0 <= i < self.stack@.len() implies (
                    #[trigger] self.stack@[i]).wf() by {
                        if i < self.stack@.len() - 1 {
                            assert(self.stack@[i] == mid_stack[i]);
                            assert(mid_stack[i] == old(self).stack@[i]);
                        }
                    }
                }
            }
        }
        proof {
            assert(old(self).stack@.drop_last() =~= old(self).stack@.subrange(0, old(
                self).stack@.len() - 1));
        }
    }

    /// Draws the connector segments for one closed, open, non-flattened
    /// directory, per `vline_segments_spec`.
    #[verifier::rlimit(100)]
    #[verifier::loop_isolation(false)]
    fn draw_vline(&mut self, d: &DirectoryState)
        requires
            old(self).wf(),
            d.wf(),
            d.is_open,
            !d.flattened,
        ensures
            final(self).wf(),
            final(self).state.segments@ == old(self).state.segments@ + vline_segments_spec(*d,
                old(self).cursor_y as int, old(self).settings),
            final(self).state.persistent == old(self).state.persistent,
            final(self).state.drop == old(self).state.drop,
            final(self).state.node_info == old(self).state.node_info,
            final(self).state.drop_marker == old(self).state.drop_marker,
            final(self).state.selection_background == old(self).state.selection_background,
            final(self).state.drag_overlay == old(self).state.drag_overlay,
            final(self).state.input == old(self).state.input,
            final(self).state.has_focus == old(self).state.has_focus,
            final(self).settings == old(self).settings,
            final(self).x_min == old(self).x_min,
            final(self).x_max == old(self).x_max,
            final(self).cursor_y == old(self).cursor_y,
            final(self).stack == old(self).stack,
    {
        let topx = mid_point(d.icon_rect.min.x, d.icon_rect.max.x);
        let topy = add_coord(d.icon_rect.max.y, 2);
        let top = Pos2 { x: topx, y: topy };
        let ghost base = self.state.segments@;
        match self.settings.vline_style {
                VLineStyle::NoLine => {
                    proof {
                        assert(self.state.segments@ =~= base + vline_segments_spec(*d,
                            self.cursor_y as int, self.settings));
                    }
                },
                VLineStyle::VLine => {
                    let by = sub_coord(self.cursor_y, self.settings.item_spacing_y);
                    self.state.segments.push((top, Pos2 { x: top.x, y: by }));
                    proof {
                        assert(self.state.segments@ =~= base + vline_segments_spec(*d,
                            self.cursor_y as int, self.settings));
                    }
                },
                VLineStyle::Hook => {
                    let kids = &d.child_node_positions;
                    let by = if kids.len() > 0 {
                        let lastp = &kids[kids.len() - 1];
                        lastp.y
                    } else {
                        topy
                    };
                    let vseg = (top, Pos2 { x: top.x, y: by });
                    self.state.segments.push(vseg);
                    let ghost pre_loop = *self;
                    let mut i: usize = 0;
                    while i < kids.len()
                        invariant
                            0 <= i <= kids@.len(),
                            kids == &d.child_node_positions,
                            *self == (TreeViewBuilder {
                                state: TreeViewState {
                                    segments: self.state.segments,
                                    ..pre_loop.state
                                },
                                ..pre_loop
                            }),
                            self.state.segments@.len() == base.len() + 1 + i,
                            forall|k: int| 0 <= k < base.len() ==> self.state.segments@[k]
                                == base[k],
                            self.state.segments@[base.len() as int] == vseg,
                            forall|j: int|
                                0 <= j < i ==> self.state.segments@[base.len() + 1 + j] == (
                                    Pos2 { x: vseg.0.x, y: (#[trigger] kids@[j]).y },
                                    Pos2 { x: csub(kids@[j].x as int, 2) as i64, y: kids@[j].y },
                                ),
                            forall|j: int| 0 <= j < kids@.len() ==> (#[trigger] kids@[j]).wf(),
                        decreases kids@.len() - i,
                    {
                        let ghost segs0 = self.state.segments@;
                        let cp = kids[i];
                        let seg = (Pos2 { x: top.x, y: cp.y }, Pos2 {
                            x: sub_coord(cp.x, 2),
                            y: cp.y,
                        });
                        self.state.segments.push(seg);
                        proof {
                            assert(self.state.segments@ == segs0.push(seg));
                            assert(self.state.segments@[segs0.len() as int] == seg);
                            assert(cp == kids@[i as int]);
                            assert(seg == (
                                Pos2 { x: vseg.0.x, y: kids@[i as int].y },
                                Pos2 {
                                    x: csub(kids@[i as int].x as int, 2) as i64,
                                    y: kids@[i as int].y,
                                },
                            ));
                            assert(forall|j: int|
                                0 <= j < segs0.len() ==> self.state.segments@[j] == segs0[j]);
                        }
                        i = i + 1;
                    }
                    proof {
                        let specs = vline_segments_spec(*d, self.cursor_y as int, self.settings);
                        assert(specs.len() == 1 + kids@.len());
                        assert(specs[0] == vseg);
                        assert forall|j: int| 0 <= j < kids@.len() implies specs[1 + j] == (
                            Pos2 { x: vseg.0.x, y: (#[trigger] kids@[j]).y },
                            Pos2 { x: csub(kids@[j].x as int, 2) as i64, y: kids@[j].y },
                        ) by {
                            assert(specs[1 + j] == Seq::new(
                                kids@.len(),
                                |k: int|
                                    (
                                        Pos2 { x: vseg.0.x, y: kids@[k].y },
                                        Pos2 {
                                            x: csub(kids@[k].x as int, 2) as i64,
                                            y: kids@[k].y,
                                        },
                                    ),
                            )[j]);
                        }
                        assert(self.state.segments@ =~= base + specs);
                    }
                },
        }
    }
}

/// Under a closed ancestor a node draws nothing: its record is marked
/// invisible with the empty rectangle, and selection, drop state and
/// connector geometry are untouched.
pub proof fn lemma_closed_ancestor_hides(
    pre: TreeViewBuilder,
    post: TreeViewBuilder,
    node: NodeBuilder,
    i: int,
)
    requires
        pre.wf(),
        0 <= i < pre.stack@.len(),
        !pre.stack@[i].is_open,
        node_effect(pre, post, node),
    ensures
        !post.state.node_info@.last().visible,
        post.state.node_info@.last().rect == Rect::nothing_spec(),
        post.state.segments@ == pre.state.segments@,
        post.state.selection_background == pre.state.selection_background,
        post.state.persistent.selected == pre.state.persistent.selected,
        post.state.persistent.dir_states@ == pre.state.persistent.dir_states@,
        post.state.drop == pre.state.drop,
        post.state.drop_marker == pre.state.drop_marker,
{
    if i < pre.stack@.len() - 1 {
        assert(!pre.stack@[pre.stack@.len() - 1].is_open);
    }
    assert(!parent_open_spec(pre.stack@));
}

/// The recorded depth of every node equals the number of open,
/// non-flattened ancestors on its path; flattened and closed ancestors
/// contribute nothing.
pub proof fn lemma_depth_counts_open_ancestors(
    pre: TreeViewBuilder,
    post: TreeViewBuilder,
    node: NodeBuilder,
)
    requires
        node_effect(pre, post, node),
    ensures
        post.state.node_info@.last().depth as nat == depth_of(pre.stack@),
{
}

} // verus!
