//! The canvas view: its tools, the shapes it draws, and stepping through
//! the shape kinds.
use vstd::prelude::*;
use crate::draw::DrawShapeType;

verus! {

/// The kinds of shape the canvas draws.
#[derive(Debug, Clone, Copy, PartialEq, Eq, Structural)]
pub enum ShapeType {
    Rect,
    Ellipse,
    Diamond,
    Line,
    Arrow,
}

/// The tools of the canvas view.
#[derive(Debug, Clone, Copy, PartialEq, Eq, Structural)]
pub enum CanvasTool {
    Draw,
    Erase,
    Text,
    Shape,
}

/// Position of a shape kind in the cycle rect, ellipse, diamond, line,
/// arrow.
pub open spec fn shape_position(s: ShapeType) -> int {
    match s {
        ShapeType::Rect => 0,
        ShapeType::Ellipse => 1,
        ShapeType::Diamond => 2,
        ShapeType::Line => 3,
        ShapeType::Arrow => 4,
    }
}

/// Position of a draw shape kind in the same cycle.
pub open spec fn draw_shape_position(s: DrawShapeType) -> int {
    match s {
        DrawShapeType::Rect => 0,
        DrawShapeType::Ellipse => 1,
        DrawShapeType::Diamond => 2,
        DrawShapeType::Line => 3,
        DrawShapeType::Arrow => 4,
    }
}

/// `(index + delta)` taken modulo five, between 0 and 4.
fn wrap_five(index: i32, delta: i32) -> (r: usize)
    requires
        0 <= index < 5,
        index + delta <= i32::MAX,
    ensures
        r == (index + delta) % 5,
        r < 5,
{
    let s: i64 = (index as i64) + (delta as i64);
    if s >= 0 {
        let u: u64 = s as u64;
        (u % 5) as usize
    } else {
        let t: u64 = (-s) as u64;
        let m: u64 = t % 5;
        let r: u64 = if m == 0 {
            0
        } else {
            5 - m
        };
        assert(r as int == s % 5) by (nonlinear_arith)
            requires
                s < 0,
                t == -s,
                m == t % 5,
                r == (if m == 0 {
                    0
                } else {
                    5 - m
                }),
        ;
        r as usize
    }
}

/// The shape kind `delta` steps after `current` in the cycle rect, ellipse,
/// diamond, line, arrow, wrapping around both ways.
pub fn cycle_shape_type(current: ShapeType, delta: i32) -> (r: ShapeType)
    requires
        shape_position(current) + delta <= i32::MAX,
    ensures
        shape_position(r) == (shape_position(current) + delta) % 5,
{
    let idx: i32 = match current {
        ShapeType::Rect => 0,
        ShapeType::Ellipse => 1,
        ShapeType::Diamond => 2,
        ShapeType::Line => 3,
        ShapeType::Arrow => 4,
    };
    let next = wrap_five(idx, delta);
    if next == 0 {
        ShapeType::Rect
    } else if next == 1 {
        ShapeType::Ellipse
    } else if next == 2 {
        ShapeType::Diamond
    } else if next == 3 {
        ShapeType::Line
    } else {
        ShapeType::Arrow
    }
}

/// The draw shape kind `delta` steps after `current`, in the same cycle.
pub fn cycle_draw_shape_type(current: DrawShapeType, delta: i32) -> (r: DrawShapeType)
    requires
        draw_shape_position(current) + delta <= i32::MAX,
    ensures
        draw_shape_position(r) == (draw_shape_position(current) + delta) % 5,
{
    let idx: i32 = match current {
        DrawShapeType::Rect => 0,
        DrawShapeType::Ellipse => 1,
        DrawShapeType::Diamond => 2,
        DrawShapeType::Line => 3,
        DrawShapeType::Arrow => 4,
    };
    let next = wrap_five(idx, delta);
    if next == 0 {
        DrawShapeType::Rect
    } else if next == 1 {
        DrawShapeType::Ellipse
    } else if next == 2 {
        DrawShapeType::Diamond
    } else if next == 3 {
        DrawShapeType::Line
    } else {
        DrawShapeType::Arrow
    }
}

/// Stepping forward and then back by the same amount gives the shape kind
/// one started from.
pub proof fn shape_cycle_round_trip(current: ShapeType, delta: int, forward: ShapeType, back: ShapeType)
    requires
        shape_position(forward) == (shape_position(current) + delta) % 5,
        shape_position(back) == (shape_position(forward) - delta) % 5,
    ensures
        back == current,
{
    assert((((shape_position(current) + delta) % 5) - delta) % 5 == shape_position(current) % 5)
        by (nonlinear_arith)
        requires
            0 <= shape_position(current) < 5,
    ;
}

} // verus!
