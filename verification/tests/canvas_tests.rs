use clin::canvas::{cycle_draw_shape_type, cycle_shape_type, ShapeType};
use clin::draw::DrawShapeType;

#[test]
fn shapes_cycle_both_ways() {
    assert_eq!(cycle_shape_type(ShapeType::Rect, 1), ShapeType::Ellipse);
    assert_eq!(cycle_shape_type(ShapeType::Arrow, 1), ShapeType::Rect);
    assert_eq!(cycle_shape_type(ShapeType::Rect, -1), ShapeType::Arrow);
    assert_eq!(cycle_shape_type(ShapeType::Diamond, -7), ShapeType::Rect);
    assert_eq!(cycle_shape_type(ShapeType::Diamond, -8), ShapeType::Arrow);
    assert_eq!(cycle_shape_type(ShapeType::Line, i32::MIN), cycle_shape_type(ShapeType::Line, i32::MIN % 5 + 5));
    for s in [ShapeType::Rect, ShapeType::Ellipse, ShapeType::Diamond, ShapeType::Line, ShapeType::Arrow] {
        assert_eq!(cycle_shape_type(cycle_shape_type(s, 3), -3), s);
    }
    assert_eq!(cycle_draw_shape_type(DrawShapeType::Line, 2), DrawShapeType::Rect);
}

#[test]
fn shape_cycle_takes_large_steps() {
    assert_eq!(cycle_shape_type(ShapeType::Rect, i32::MAX), ShapeType::Diamond);
    assert_eq!(cycle_draw_shape_type(DrawShapeType::Ellipse, i32::MAX - 1), DrawShapeType::Diamond);
    assert_eq!(cycle_shape_type(ShapeType::Arrow, i32::MIN), ShapeType::Ellipse);
}
