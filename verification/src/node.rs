//! Per-node description and per-row geometry: the drop-quarter resolver,
//! the fluent node descriptor, and the slot/rectangle layout of one row.

use vstd::prelude::*;
use crate::geom::{Pos2, Rect, Rangef, in_range, cadd, cmul_indent, mid_spec, mid_point, indent_px,
    add_coord, MAX_COORD};
use crate::state::{RowLayout, TreeViewSettings};

verus! {

/// Height of the `Top` and `Bottom` bands of a row, in pixels.
pub const DROP_LINE_HOVER_HEIGHT: i64 = 5;

/// One of the four vertical sub-zones of a row that disambiguate drop
/// intent: insert before, inside at the end, inside at the start, after.
#[derive(Clone, Copy, Debug, PartialEq, Eq, Structural)]
pub enum DropQuarter {
    Top,
    MiddleTop,
    MiddleBottom,
    Bottom,
}

/// The midpoint of the row's vertical extent; the top itself when the
/// extent is inverted.
pub open spec fn row_mid(min: int, max: int) -> int {
    if max >= min {
        mid_spec(min, max)
    } else {
        min
    }
}

/// Which quarter a pointer at height `y` falls into for a row spanning
/// `[min, max)`: a fixed band at each edge, the interior split at the
/// midpoint. `None` when the pointer misses the row; every zone lies
/// inside `[min, max)`, so a zero-size or inverted row yields no zone
/// at all.
pub open spec fn drop_quarter_spec(min: int, max: int, y: int) -> Option<DropQuarter> {
    let h1 = min + (DROP_LINE_HOVER_HEIGHT as int);
    let h2 = row_mid(min, max);
    let h3 = max - (DROP_LINE_HOVER_HEIGHT as int);
    if min <= y && y < h1 && y < max {
        Some(DropQuarter::Top)
    } else if h1 <= y && y < h2 {
        Some(DropQuarter::MiddleTop)
    } else if h2 <= y && y < h3 {
        Some(DropQuarter::MiddleBottom)
    } else if h3 <= y && min <= y && y < max {
        Some(DropQuarter::Bottom)
    } else {
        None
    }
}

impl DropQuarter {
    /// Resolves the drop quarter for a pointer at `cursor_pos` over a row
    /// with vertical extent `range`.
    pub fn new(range: Rangef, cursor_pos: i64) -> (r: Option<DropQuarter>)
        requires
            range.wf(),
            in_range(cursor_pos),
        ensures
            r == drop_quarter_spec(range.min as int, range.max as int, cursor_pos as int),
    {
        let h0 = range.min;
        let h1 = range.min + DROP_LINE_HOVER_HEIGHT;
        let h2 = if range.max >= range.min {
            mid_point(range.min, range.max)
        } else {
            range.min
        };
        let h3 = range.max - DROP_LINE_HOVER_HEIGHT;
        let h4 = range.max;
        let y = cursor_pos;
        if y >= h0 && y < h1 && y < h4 {
            Some(DropQuarter::Top)
        } else if y >= h1 && y < h2 {
            Some(DropQuarter::MiddleTop)
        } else if y >= h2 && y < h3 {
            Some(DropQuarter::MiddleBottom)
        } else if y >= h3 && y >= h0 && y < h4 {
            Some(DropQuarter::Bottom)
        } else {
            None
        }
    }
}

/// A pointer outside `[min, max)` never resolves to a zone, whatever
/// the row's size: a zero-size or inverted row degrades to no zone
/// rather than misclassifying the pointer.
pub proof fn lemma_no_zone_outside_row(min: int, max: int, y: int)
    ensures
        drop_quarter_spec(min, max, y) is Some ==> min <= y < max,
        !(min <= y < max) ==> drop_quarter_spec(min, max, y) is None,
{
    if max >= min {
        let l = max - min;
        assert(0 <= l / 2 <= l) by (nonlinear_arith)
            requires
                l >= 0,
        ;
    }
}

/// For a row at least two edge bands tall, the four quarters partition
/// the row exactly: the `Top` and `Bottom` bands each span one band
/// height from their edge, the interior splits at the midpoint, and a
/// pointer outside `[min, max)` resolves to no quarter.
pub proof fn lemma_drop_quarter_partition(min: int, max: int, y: int)
    requires
        min + 2 * (DROP_LINE_HOVER_HEIGHT as int) <= max,
    ensures
        (drop_quarter_spec(min, max, y) == Some(DropQuarter::Top)) <==> (min <= y < min + (
        DROP_LINE_HOVER_HEIGHT as int)),
        (drop_quarter_spec(min, max, y) == Some(DropQuarter::MiddleTop)) <==> (min + (
        DROP_LINE_HOVER_HEIGHT as int) <= y < row_mid(min, max)),
        (drop_quarter_spec(min, max, y) == Some(DropQuarter::MiddleBottom)) <==> (row_mid(min, max)
            <= y < max - (DROP_LINE_HOVER_HEIGHT as int)),
        (drop_quarter_spec(min, max, y) == Some(DropQuarter::Bottom)) <==> (max - (
        DROP_LINE_HOVER_HEIGHT as int) <= y < max),
        (drop_quarter_spec(min, max, y) is None) <==> !(min <= y < max),
{
    let l = max - min;
    assert(l / 2 >= 5) by (nonlinear_arith)
        requires
            l >= 10,
    ;
    assert(l - l / 2 >= 5) by (nonlinear_arith)
        requires
            l >= 10,
    ;
}

/// State handed to a custom closer drawer.
#[derive(Clone, Copy, Debug, PartialEq, Eq, Structural)]
pub struct CloserState {
    /// Whether the directory this closer belongs to is open.
    pub is_open: bool,
    /// Whether the pointer hovers the closer.
    pub is_hovered: bool,
}

/// Declarative description of one node for the current frame, consumed
/// once by the tree builder. The icon and closer drawers themselves live
/// with the painting frontend; the descriptor only records whether they
/// exist, which is what slot layout needs.
#[derive(Clone, Copy, Debug)]
pub struct NodeBuilder {
    pub id: u64,
    pub is_dir: bool,
    /// Fold this directory into its parent: no row of its own, children
    /// at the parent's level.
    pub flatten: bool,
    /// The resolved open state, filled in by the builder.
    pub is_open: bool,
    /// Open state used the first time this id is seen.
    pub default_open: bool,
    /// Whether dropping onto this node is permitted.
    pub drop_allowed: bool,
    /// Indentation level, filled in by the builder.
    pub indent: usize,
    /// Whether the frontend will draw an icon for this node.
    pub has_icon: bool,
    /// Whether the frontend will draw a custom closer for this node.
    pub has_custom_closer: bool,
}

impl NodeBuilder {
    /// A leaf prototype: not a directory, drop-on not allowed.
    pub fn leaf(id: u64) -> (r: NodeBuilder)
        ensures
            r == (NodeBuilder {
                id,
                is_dir: false,
                flatten: false,
                is_open: false,
                default_open: true,
                drop_allowed: false,
                indent: 0,
                has_icon: false,
                has_custom_closer: false,
            }),
    {
        NodeBuilder {
            id,
            is_dir: false,
            flatten: false,
            is_open: false,
            default_open: true,
            drop_allowed: false,
            indent: 0,
            has_icon: false,
            has_custom_closer: false,
        }
    }

    /// A directory prototype: drop-on allowed, open by default.
    pub fn dir(id: u64) -> (r: NodeBuilder)
        ensures
            r == (NodeBuilder {
                id,
                is_dir: true,
                flatten: false,
                is_open: false,
                default_open: true,
                drop_allowed: true,
                indent: 0,
                has_icon: false,
                has_custom_closer: false,
            }),
    {
        NodeBuilder {
            id,
            is_dir: true,
            flatten: false,
            is_open: false,
            default_open: true,
            drop_allowed: true,
            indent: 0,
            has_icon: false,
            has_custom_closer: false,
        }
    }

    /// Whether the directory is flattened into its parent.
    pub fn flatten(self, flatten: bool) -> (r: NodeBuilder)
        ensures
            r == (NodeBuilder { flatten, ..self }),
    {
        NodeBuilder { flatten, ..self }
    }

    /// Whether the directory starts open the first time its id is seen.
    pub fn default_open(self, default_open: bool) -> (r: NodeBuilder)
        ensures
            r == (NodeBuilder { default_open, ..self }),
    {
        NodeBuilder { default_open, ..self }
    }

    /// Whether dropping onto this node is allowed.
    pub fn drop_allowed(self, drop_allowed: bool) -> (r: NodeBuilder)
        ensures
            r == (NodeBuilder { drop_allowed, ..self }),
    {
        NodeBuilder { drop_allowed, ..self }
    }

    /// Declare that the frontend draws an icon for this node.
    pub fn icon(self) -> (r: NodeBuilder)
        ensures
            r == (NodeBuilder { has_icon: true, ..self }),
    {
        NodeBuilder { has_icon: true, ..self }
    }

    /// Declare that the frontend draws a custom closer for this node.
    /// Leaves show no closer either way.
    pub fn closer(self) -> (r: NodeBuilder)
        ensures
            r == (NodeBuilder { has_custom_closer: true, ..self }),
    {
        NodeBuilder { has_custom_closer: true, ..self }
    }

    pub(crate) fn set_is_open(&mut self, open: bool)
        ensures
            *final(self) == (NodeBuilder { is_open: open, ..*old(self) }),
    {
        self.is_open = open;
    }

    pub(crate) fn set_indent(&mut self, indent: usize)
        ensures
            *final(self) == (NodeBuilder { indent, ..*old(self) }),
    {
        self.indent = indent;
    }
}

/// Which of the closer and icon slots one row reserves and fills.
#[derive(Clone, Copy, Debug, PartialEq, Eq, Structural)]
pub struct RowSlots {
    pub reserve_closer: bool,
    pub draw_closer: bool,
    pub reserve_icon: bool,
    pub draw_icon: bool,
}

/// The slot policy of each layout mode: which slots are held open even
/// when empty, so that sibling labels align.
pub open spec fn row_slots_spec(layout: RowLayout, is_dir: bool, has_icon: bool) -> RowSlots {
    match layout {
        RowLayout::Compact => RowSlots {
            reserve_closer: is_dir,
            draw_closer: is_dir,
            reserve_icon: false,
            draw_icon: false,
        },
        RowLayout::CompactAlignedLabels => RowSlots {
            reserve_closer: is_dir,
            draw_closer: is_dir,
            reserve_icon: !is_dir,
            draw_icon: !is_dir && has_icon,
        },
        RowLayout::AlignedIcons => RowSlots {
            reserve_closer: true,
            draw_closer: is_dir,
            reserve_icon: has_icon,
            draw_icon: has_icon,
        },
        RowLayout::AlignedIconsAndLabels => RowSlots {
            reserve_closer: true,
            draw_closer: is_dir,
            reserve_icon: true,
            draw_icon: has_icon,
        },
    }
}

/// Resolves the slot policy for one row.
pub fn row_slots(layout: RowLayout, is_dir: bool, has_icon: bool) -> (r: RowSlots)
    ensures
        r == row_slots_spec(layout, is_dir, has_icon),
{
    match layout {
        RowLayout::Compact => RowSlots {
            reserve_closer: is_dir,
            draw_closer: is_dir,
            reserve_icon: false,
            draw_icon: false,
        },
        RowLayout::CompactAlignedLabels => RowSlots {
            reserve_closer: is_dir,
            draw_closer: is_dir,
            reserve_icon: !is_dir,
            draw_icon: !is_dir && has_icon,
        },
        RowLayout::AlignedIcons => RowSlots {
            reserve_closer: true,
            draw_closer: is_dir,
            reserve_icon: has_icon,
            draw_icon: has_icon,
        },
        RowLayout::AlignedIconsAndLabels => RowSlots {
            reserve_closer: true,
            draw_closer: is_dir,
            reserve_icon: true,
            draw_icon: has_icon,
        },
    }
}

/// The rectangles one row occupies: the full row strip and the closer,
/// icon and label sub-rectangles inside it.
#[derive(Clone, Copy, Debug, PartialEq)]
pub struct RowRects {
    pub row: Rect,
    pub closer: Option<Rect>,
    pub icon: Option<Rect>,
    pub label: Rect,
}

/// The row layout arithmetic: content starts after the horizontal
/// padding and the indentation, the closer and icon slots each advance
/// by one slot width when reserved, and the label takes the rest of the
/// strip. All sums clamp to the coordinate band.
pub open spec fn layout_row_spec(
    x_min: int,
    x_max: int,
    y_top: int,
    settings: TreeViewSettings,
    slots: RowSlots,
    depth: nat,
) -> RowRects {
    let y_bot = cadd(y_top, settings.row_height as int);
    let x0 = cadd(cadd(x_min, settings.item_spacing_x as int), cmul_indent(depth,
        settings.indent_unit_spec()));
    let x1 = if slots.reserve_closer {
        cadd(x0, settings.icon_width as int)
    } else {
        x0
    };
    let x2 = if slots.reserve_icon {
        cadd(x1, settings.icon_width as int)
    } else {
        x1
    };
    let x_label = cadd(x2, 2);
    RowRects {
        row: Rect {
            min: Pos2 { x: x_min as i64, y: y_top as i64 },
            max: Pos2 { x: x_max as i64, y: y_bot as i64 },
        },
        closer: if slots.draw_closer {
            Some(Rect {
                min: Pos2 { x: x0 as i64, y: y_top as i64 },
                max: Pos2 { x: cadd(x0, settings.icon_width as int) as i64, y: y_bot as i64 },
            })
        } else {
            None
        },
        icon: if slots.draw_icon {
            Some(Rect {
                min: Pos2 { x: x1 as i64, y: y_top as i64 },
                max: Pos2 { x: cadd(x1, settings.icon_width as int) as i64, y: y_bot as i64 },
            })
        } else {
            None
        },
        label: Rect {
            min: Pos2 { x: x_label as i64, y: y_top as i64 },
            max: Pos2 { x: x_max as i64, y: y_bot as i64 },
        },
    }
}

/// Lays one row out inside the horizontal strip `[x_min, x_max]` whose
/// top edge sits at `y_top`.
pub fn layout_row(
    x_min: i64,
    x_max: i64,
    y_top: i64,
    settings: &TreeViewSettings,
    slots: RowSlots,
    depth: usize,
) -> (r: RowRects)
    requires
        in_range(x_min),
        in_range(x_max),
        in_range(y_top),
        settings.wf(),
    ensures
        r == layout_row_spec(x_min as int, x_max as int, y_top as int, *settings, slots,
            depth as nat),
        r.row.wf(),
        r.label.wf(),
        match r.closer {
            Some(c) => c.wf() && c.min.x <= c.max.x && c.min.y <= c.max.y,
            None => true,
        },
        r.row.min.y <= r.row.max.y,
        r.label.min.y <= r.label.max.y,
{
    let y_bot = add_coord(y_top, settings.row_height);
    let x0 = add_coord(add_coord(x_min, settings.item_spacing_x), indent_px(depth,
        settings.indent_unit()));
    let x1 = if slots.reserve_closer {
        add_coord(x0, settings.icon_width)
    } else {
        x0
    };
    let x2 = if slots.reserve_icon {
        add_coord(x1, settings.icon_width)
    } else {
        x1
    };
    let x_label = add_coord(x2, 2);
    RowRects {
        row: Rect { min: Pos2 { x: x_min, y: y_top }, max: Pos2 { x: x_max, y: y_bot } },
        closer: if slots.draw_closer {
            Some(Rect {
                min: Pos2 { x: x0, y: y_top },
                max: Pos2 { x: add_coord(x0, settings.icon_width), y: y_bot },
            })
        } else {
            None
        },
        icon: if slots.draw_icon {
            Some(Rect {
                min: Pos2 { x: x1, y: y_top },
                max: Pos2 { x: add_coord(x1, settings.icon_width), y: y_bot },
            })
        } else {
            None
        },
        label: Rect { min: Pos2 { x: x_label, y: y_top }, max: Pos2 { x: x_max, y: y_bot } },
    }
}

} // verus!
