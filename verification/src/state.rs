//! Frame-to-frame state of the tree view and the per-frame input it is
//! resolved against.
//!
//! Only a small persistent core survives between frames: the selection,
//! the per-directory open flags, and the drag state. Everything else —
//! drop target, visible-node list, marker and connector geometry — is
//! rebuilt from scratch on every pass.

use vstd::prelude::*;
use std::collections::HashMap;
use crate::geom::{Pos2, Vec2, Rect, in_range};

verus! {

broadcast use vstd::std_specs::hash::group_hash_axioms;

/// Where a dragged node would be inserted relative to a target directory.
#[derive(Clone, Copy, Debug, PartialEq, Eq, Structural)]
pub enum DropPosition {
    /// As the first child of the target directory.
    First,
    /// As the last child of the target directory.
    Last,
    /// As a sibling directly after the named child of the target.
    After(u64),
    /// As a sibling directly before the named child of the target.
    Before(u64),
}

/// The drag that is in progress, created on press-and-move of a row and
/// cleared by the caller on release.
#[derive(Clone, Copy, Debug, PartialEq, Eq, Structural)]
pub struct DragState {
    /// Id of the dragged node; immutable while the drag lives.
    pub node_id: u64,
    /// Offset from the pointer to the top-left of the dragged row at
    /// press time; keeps the drag overlay anchored under the pointer.
    pub drag_row_offset: Vec2,
    /// Pointer position at press time.
    pub drag_start_pos: Pos2,
    /// Whether the pointer has travelled far enough for the drag to count.
    pub drag_valid: bool,
}

/// One entry of the flattened visible-node list that a frame produces,
/// used by the caller for hit-testing and keyboard navigation.
#[derive(Clone, Copy, Debug, PartialEq)]
pub struct NodeInfo {
    /// Number of open, non-flattened ancestors of the node.
    pub depth: usize,
    pub node_id: u64,
    /// Whether the node's row was laid out this frame.
    pub visible: bool,
    /// The row's rectangle; the inverted empty rectangle when not visible.
    pub rect: Rect,
    /// Id of the nearest enclosing directory, flattened or not.
    pub parent_node_id: Option<u64>,
}

/// Pointer and focus signals for one frame, as the windowing substrate
/// reports them for the whole tree area.
#[derive(Clone, Copy, Debug)]
pub struct PointerInput {
    /// Pointer position if it hovers the tree area.
    pub hover_pos: Option<Pos2>,
    /// Most recent known pointer position.
    pub latest_pos: Option<Pos2>,
    /// A primary click was released this frame.
    pub clicked: bool,
    /// A double click finished this frame.
    pub double_clicked: bool,
    /// A drag gesture started this frame.
    pub drag_started: bool,
    /// The substrate reports that something is being dragged.
    pub anything_dragged: bool,
}

impl PointerInput {
    pub open spec fn wf(self) -> bool {
        &&& match self.hover_pos {
            Some(p) => p.wf(),
            None => true,
        }
        &&& match self.latest_pos {
            Some(p) => p.wf(),
            None => true,
        }
    }

    /// Input with no pointer activity at all.
    pub fn idle() -> (r: PointerInput)
        ensures
            r.hover_pos is None,
            r.latest_pos is None,
            !r.clicked,
            !r.double_clicked,
            !r.drag_started,
            !r.anything_dragged,
            r.wf(),
    {
        PointerInput {
            hover_pos: None,
            latest_pos: None,
            clicked: false,
            double_clicked: false,
            drag_started: false,
            anything_dragged: false,
        }
    }
}

/// How the pointer relates to one rectangle this frame.
#[derive(Clone, Copy, Debug, PartialEq, Eq, Structural)]
pub struct Interaction {
    pub clicked: bool,
    pub double_clicked: bool,
    pub hovered: bool,
    pub drag_started: bool,
}

/// Whether the pointer hovers `rect`.
pub open spec fn hovered_spec(input: PointerInput, rect: Rect) -> bool {
    match input.hover_pos {
        Some(p) => rect.contains_spec(p),
        None => false,
    }
}

/// The interaction a rectangle receives: the global click, double-click
/// and drag-start signals gated by whether the pointer hovers it.
pub open spec fn interact_spec(input: PointerInput, rect: Rect) -> Interaction {
    let h = hovered_spec(input, rect);
    Interaction {
        clicked: h && input.clicked,
        double_clicked: h && input.double_clicked,
        hovered: h,
        drag_started: h && input.drag_started,
    }
}

/// Style of the connector line between a directory and its descendants.
#[derive(Clone, Copy, Debug, PartialEq, Eq, Structural)]
pub enum VLineStyle {
    /// Draw no connector.
    NoLine,
    /// One vertical segment from the directory's closer down to the row
    /// after its last descendant.
    VLine,
    /// A vertical segment down to the last direct child's anchor, plus a
    /// short horizontal tick to every direct child's anchor.
    Hook,
}

/// Which of the closer and icon slots a row reserves or fills, keeping
/// sibling labels aligned.
#[derive(Clone, Copy, Debug, PartialEq, Eq, Structural)]
pub enum RowLayout {
    /// Reserve a closer slot only for directories; no icon slot.
    Compact,
    /// Closer slot for directories; leaves get an icon slot instead, so
    /// all labels align.
    CompactAlignedLabels,
    /// Closer slot for every row; icon slot for rows that have an icon.
    AlignedIcons,
    /// Closer and icon slots for every row.
    AlignedIconsAndLabels,
}

/// Visual configuration of the tree, fixed for a frame.
#[derive(Clone, Copy, Debug)]
pub struct TreeViewSettings {
    /// Absolute indent width per level, replacing `indent` when set.
    pub override_indent: Option<i64>,
    /// Ambient indent width per level.
    pub indent: i64,
    pub vline_style: VLineStyle,
    pub row_layout: RowLayout,
    /// Full height of one row, vertical spacing included.
    pub row_height: i64,
    /// Width of the closer and icon slots.
    pub icon_width: i64,
    /// Horizontal padding at the left edge of a row's content.
    pub item_spacing_x: i64,
    /// Vertical spacing between rows, already part of `row_height`; used
    /// to inset connector lines and markers.
    pub item_spacing_y: i64,
}

impl TreeViewSettings {
    pub open spec fn wf(self) -> bool {
        &&& match self.override_indent {
            Some(v) => 0 <= v <= crate::geom::MAX_COORD,
            None => true,
        }
        &&& 0 <= self.indent <= crate::geom::MAX_COORD
        &&& 0 <= self.row_height <= crate::geom::MAX_COORD
        &&& 0 <= self.icon_width <= crate::geom::MAX_COORD
        &&& 0 <= self.item_spacing_x <= crate::geom::MAX_COORD
        &&& 0 <= self.item_spacing_y <= crate::geom::MAX_COORD
    }

    /// The indent width one depth level adds: the override if set, the
    /// ambient width otherwise.
    pub open spec fn indent_unit_spec(self) -> int {
        match self.override_indent {
            Some(v) => v as int,
            None => self.indent as int,
        }
    }

    pub fn indent_unit(&self) -> (r: i64)
        ensures
            r == self.indent_unit_spec(),
    {
        match self.override_indent {
            Some(v) => v,
            None => self.indent,
        }
    }
}

impl Default for TreeViewSettings {
    /// Compact layout with hook connectors and a moderate indent.
    fn default() -> (r: TreeViewSettings)
        ensures
            r.wf(),
            r.override_indent is None,
            r.indent == 20,
            r.vline_style == VLineStyle::Hook,
            r.row_layout == RowLayout::CompactAlignedLabels,
            r.row_height == 20,
            r.icon_width == 14,
            r.item_spacing_x == 4,
            r.item_spacing_y == 4,
    {
        TreeViewSettings {
            override_indent: None,
            indent: 20,
            vline_style: VLineStyle::Hook,
            row_layout: RowLayout::CompactAlignedLabels,
            row_height: 20,
            icon_width: 14,
            item_spacing_x: 4,
            item_spacing_y: 4,
        }
    }
}

/// The state that survives across frames.
#[derive(Debug)]
pub struct TreeViewPersistentState {
    /// The selected node, if any.
    pub selected: Option<u64>,
    /// Resolved open flag of every directory ever seen, keyed by node id.
    /// Grows monotonically; stale ids persist harmlessly.
    pub dir_states: HashMap<u64, bool>,
    /// The drag in progress, if any.
    pub dragged: Option<DragState>,
}

/// The selection after `set_selected(id)`.
pub open spec fn set_selected_spec(s: TreeViewPersistentState, id: u64) -> TreeViewPersistentState {
    TreeViewPersistentState { selected: Some(id), ..s }
}

/// The open flag a directory resolves to: its stored flag when the id was
/// seen before, the descriptor's `default_open` on first encounter.
pub open spec fn resolved_open(m: Map<u64, bool>, id: u64, default_open: bool) -> bool {
    if m.contains_key(id) {
        m[id]
    } else {
        default_open
    }
}

/// Selection is idempotent: setting the same id twice leaves the same
/// state as setting it once.
pub proof fn lemma_set_selected_idempotent(s: TreeViewPersistentState, id: u64)
    ensures
        set_selected_spec(set_selected_spec(s, id), id) == set_selected_spec(s, id),
{
}

/// A directory's open flag is seeded from `default_open` exactly once:
/// once the id is stored, the default is ignored; before that, the
/// resolved flag is the default itself.
pub proof fn lemma_open_state_seeded_once(m: Map<u64, bool>, id: u64, d1: bool, d2: bool)
    ensures
        m.contains_key(id) ==> resolved_open(m, id, d1) == resolved_open(m, id, d2),
        !m.contains_key(id) ==> resolved_open(m, id, d1) == d1,
{
}

/// Stored open flags survive any frame that resolves a different id:
/// writing one id's flag leaves every other id's flag unchanged.
pub proof fn lemma_open_state_survives(m: Map<u64, bool>, id: u64, v: bool, other: u64)
    requires
        other != id,
        m.contains_key(other),
    ensures
        m.insert(id, v).contains_key(other),
        m.insert(id, v)[other] == m[other],
{
}

/// The whole state of one tree view: the persistent core plus everything
/// the current frame computed.
#[derive(Debug)]
pub struct TreeViewState {
    pub persistent: TreeViewPersistentState,
    /// This frame's drop target: the directory to insert into and where.
    pub drop: Option<(u64, DropPosition)>,
    /// This frame's flattened node list, in traversal order.
    pub node_info: Vec<NodeInfo>,
    /// The drop-marker rectangle computed this frame, if any.
    pub drop_marker: Option<Rect>,
    /// The selected row's background this frame, with whether the tree
    /// has keyboard focus (which picks the highlight tint).
    pub selection_background: Option<(Rect, bool)>,
    /// Connector-line segments computed this frame, in draw order.
    pub segments: Vec<(Pos2, Pos2)>,
    /// Where the dragged row's overlay is anchored this frame, if a
    /// confirmed drag is in progress.
    pub drag_overlay: Option<Rect>,
    /// Whether the tree has keyboard focus this frame.
    pub has_focus: bool,
    /// This frame's pointer signals.
    pub input: PointerInput,
}

impl TreeViewState {
    pub open spec fn wf(self) -> bool {
        &&& self.input.wf()
        &&& match self.persistent.dragged {
            Some(d) => d.drag_start_pos.wf() && d.drag_row_offset.wf(),
            None => true,
        }
    }

    /// Fresh state: nothing selected, no directory seen, no drag.
    pub fn new() -> (r: TreeViewState)
        ensures
            r.persistent.selected is None,
            r.persistent.dir_states@ == Map::<u64, bool>::empty(),
            r.persistent.dragged is None,
            r.drop is None,
            r.node_info@.len() == 0,
            r.drop_marker is None,
            r.selection_background is None,
            r.segments@.len() == 0,
            r.drag_overlay is None,
            !r.has_focus,
            r.wf(),
    {
        TreeViewState {
            persistent: TreeViewPersistentState {
                selected: None,
                dir_states: HashMap::new(),
                dragged: None,
            },
            drop: None,
            node_info: Vec::new(),
            drop_marker: None,
            selection_background: None,
            segments: Vec::new(),
            drag_overlay: None,
            has_focus: false,
            input: PointerInput::idle(),
        }
    }

    pub open spec fn is_selected_spec(self, id: u64) -> bool {
        self.persistent.selected == Some(id)
    }

    /// Whether `id` is the selected node.
    pub fn is_selected(&self, id: u64) -> (r: bool)
        ensures
            r == self.is_selected_spec(id),
    {
        match self.persistent.selected {
            Some(s) => s == id,
            None => false,
        }
    }

    pub open spec fn is_dragged_spec(self, id: u64) -> bool {
        match self.persistent.dragged {
            Some(d) => d.node_id == id,
            None => false,
        }
    }

    /// Whether `id` is the node a drag was started on.
    pub fn is_dragged(&self, id: u64) -> (r: bool)
        ensures
            r == self.is_dragged_spec(id),
    {
        match &self.persistent.dragged {
            Some(d) => d.node_id == id,
            None => false,
        }
    }

    pub open spec fn drag_valid_spec(self) -> bool {
        match self.persistent.dragged {
            Some(d) => d.drag_valid,
            None => false,
        }
    }

    /// Whether a drag is in progress and has travelled past the
    /// confirmation threshold.
    pub fn drag_valid(&self) -> (r: bool)
        ensures
            r == self.drag_valid_spec(),
    {
        match &self.persistent.dragged {
            Some(d) => d.drag_valid,
            None => false,
        }
    }

    /// The interaction `rect` receives from this frame's pointer input.
    pub fn interact(&self, rect: &Rect) -> (r: Interaction)
        ensures
            r == interact_spec(self.input, *rect),
    {
        let hovered = match &self.input.hover_pos {
            Some(p) => rect.contains(*p),
            None => false,
        };
        Interaction {
            clicked: hovered && self.input.clicked,
            double_clicked: hovered && self.input.double_clicked,
            hovered,
            drag_started: hovered && self.input.drag_started,
        }
    }

    pub open spec fn drop_result_spec(self) -> Option<(u64, u64, DropPosition)> {
        match (self.persistent.dragged, self.drop) {
            (Some(d), Some((target, pos))) => if d.drag_valid {
                Some((d.node_id, target, pos))
            } else {
                None
            },
            _ => None,
        }
    }

    /// The finished frame's drag-and-drop outcome, for the caller to
    /// apply to its own data: dragged node, target directory, position.
    pub fn drop_result(&self) -> (r: Option<(u64, u64, DropPosition)>)
        ensures
            r == self.drop_result_spec(),
    {
        match (&self.persistent.dragged, &self.drop) {
            (Some(d), Some((target, pos))) => if d.drag_valid {
                Some((d.node_id, *target, *pos))
            } else {
                None
            },
            _ => None,
        }
    }
}

/// Pointer travel needed before a drag counts as confirmed, in pixels.
pub const DRAG_CONFIRM_DISTANCE: i64 = 5;

/// Whether the pointer has travelled more than the confirmation distance
/// from `a` to `b` (compared on squared Euclidean distance).
pub open spec fn beyond_drag_threshold(a: Pos2, b: Pos2) -> bool {
    (a.x - b.x) * (a.x - b.x) + (a.y - b.y) * (a.y - b.y) > DRAG_CONFIRM_DISTANCE
        * DRAG_CONFIRM_DISTANCE
}

/// Decides `beyond_drag_threshold` for in-band points.
pub fn check_drag_threshold(a: Pos2, b: Pos2) -> (r: bool)
    requires
        a.wf(),
        b.wf(),
    ensures
        r == beyond_drag_threshold(a, b),
{
    let dx = a.x - b.x;
    let dy = a.y - b.y;
    if dx > DRAG_CONFIRM_DISTANCE || dx < -DRAG_CONFIRM_DISTANCE || dy > DRAG_CONFIRM_DISTANCE
        || dy < -DRAG_CONFIRM_DISTANCE {
        proof {
            assert(dx * dx + dy * dy > 25) by (nonlinear_arith)
                requires
                    dx > 5 || dx < -5 || dy > 5 || dy < -5,
            ;
        }
        true
    } else {
        proof {
            assert(0 <= dx * dx <= 25 && 0 <= dy * dy <= 25) by (nonlinear_arith)
                requires
                    -5 <= dx <= 5,
                    -5 <= dy <= 5,
            ;
        }
        dx * dx + dy * dy > DRAG_CONFIRM_DISTANCE * DRAG_CONFIRM_DISTANCE
    }
}

} // verus!
