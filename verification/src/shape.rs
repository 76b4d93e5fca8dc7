use vstd::prelude::*;

verus! {

/// The thickness, in pixels, of the bar and underline cursors.
pub const CURSOR_STROKE_PX: u32 = 2;

/// How the cursor is drawn in a text cell.
#[derive(Clone, Copy, Debug, PartialEq, Eq, Structural)]
pub enum CursorShape {
    /// A thin vertical stroke at the left edge of the cell.
    Bar,
    /// A filled box over the whole cell.
    Block,
    /// A thin horizontal stroke along the bottom of the cell.
    Underline,
    /// An outlined box over the whole cell.
    Hollow,
}

/// Where one side of the cursor box takes its length from.
#[derive(Clone, Copy, Debug, PartialEq, Eq, Structural)]
pub enum Span {
    /// The fixed stroke thickness of thin cursors.
    Stroke,
    /// The width of the character cell under the cursor.
    BlockWidth,
    /// The height of the text line.
    LineHeight,
}

/// The box of a cursor relative to the top left corner of its cell: the
/// lengths of its sides and whether it sits on the bottom of the line (its top
/// edge is then one stroke above the line's bottom) rather than on the cell's
/// top edge.
#[derive(Clone, Copy, Debug, PartialEq, Eq, Structural)]
pub struct CursorBox {
    pub width: Span,
    pub height: Span,
    pub on_line_bottom: bool,
}

/// The box that each cursor shape occupies.
pub open spec fn shape_box(shape: CursorShape) -> CursorBox {
    match shape {
        CursorShape::Bar => CursorBox {
            width: Span::Stroke,
            height: Span::LineHeight,
            on_line_bottom: false,
        },
        CursorShape::Block | CursorShape::Hollow => CursorBox {
            width: Span::BlockWidth,
            height: Span::LineHeight,
            on_line_bottom: false,
        },
        CursorShape::Underline => CursorBox {
            width: Span::BlockWidth,
            height: Span::Stroke,
            on_line_bottom: true,
        },
    }
}

/// The box that a cursor of shape `shape` occupies in its cell.
pub fn cursor_box(shape: CursorShape) -> (b: CursorBox)
    ensures
        b == shape_box(shape),
{
    match shape {
        CursorShape::Bar => CursorBox {
            width: Span::Stroke,
            height: Span::LineHeight,
            on_line_bottom: false,
        },
        CursorShape::Block | CursorShape::Hollow => CursorBox {
            width: Span::BlockWidth,
            height: Span::LineHeight,
            on_line_bottom: false,
        },
        CursorShape::Underline => CursorBox {
            width: Span::BlockWidth,
            height: Span::Stroke,
            on_line_bottom: true,
        },
    }
}

/// The length of a side measured by `span`, in exact arithmetic.
pub open spec fn span_length(span: Span, stroke: int, block_width: int, line_height: int) -> int {
    match span {
        Span::Stroke => stroke,
        Span::BlockWidth => block_width,
        Span::LineHeight => line_height,
    }
}

/// The offset of the box's top edge below the cell's top edge, in exact
/// arithmetic.
pub open spec fn box_top(b: CursorBox, stroke: int, line_height: int) -> int {
    if b.on_line_bottom {
        line_height - stroke
    } else {
        0
    }
}

/// Every cursor box reaches down to the bottom of the line, and lies within
/// the line when the stroke is no thicker than the line is high; only the
/// underline leaves the top of the line uncovered, and a block and a hollow
/// cursor occupy the same box.
pub proof fn lemma_cursor_box_spans_to_line_bottom(
    shape: CursorShape,
    stroke: int,
    block_width: int,
    line_height: int,
)
    ensures
        box_top(shape_box(shape), stroke, line_height) + span_length(
            shape_box(shape).height,
            stroke,
            block_width,
            line_height,
        ) == line_height,
        0 <= stroke <= line_height ==> 0 <= box_top(shape_box(shape), stroke, line_height),
        shape != CursorShape::Underline ==> box_top(shape_box(shape), stroke, line_height) == 0,
        shape == CursorShape::Underline ==> span_length(
            shape_box(shape).height,
            stroke,
            block_width,
            line_height,
        ) == stroke,
        shape_box(CursorShape::Block) == shape_box(CursorShape::Hollow),
{
}

/// With the stroke of `CURSOR_STROKE_PX` pixels, a bar cursor is that many
/// pixels wide and a line high, and an underline cursor is that many pixels
/// high, a cell wide, with its top that many pixels above the line's bottom.
pub proof fn lemma_thin_cursors_are_one_stroke_thick(block_width: int, line_height: int)
    ensures
        span_length(shape_box(CursorShape::Bar).width, CURSOR_STROKE_PX as int, block_width, line_height) == 2,
        span_length(shape_box(CursorShape::Bar).height, CURSOR_STROKE_PX as int, block_width, line_height) == line_height,
        span_length(shape_box(CursorShape::Underline).height, CURSOR_STROKE_PX as int, block_width, line_height) == 2,
        span_length(shape_box(CursorShape::Underline).width, CURSOR_STROKE_PX as int, block_width, line_height) == block_width,
        box_top(shape_box(CursorShape::Underline), CURSOR_STROKE_PX as int, line_height) == line_height - 2,
{
}

} // verus!
