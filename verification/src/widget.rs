//! What hit testing reads of a widget, and the test itself.

use vstd::prelude::*;
use crate::geometry::{Point, Rectangle};

verus! {

/// The attributes of one widget that pointer routing reads.
///
/// Of `bounds` only the width and the height count: where the widget stands
/// on the window is `position`.
#[derive(Clone, Copy, PartialEq, Eq, Structural, Debug)]
pub struct WidgetContainer {
    pub enabled: bool,
    pub bounds: Rectangle,
    pub position: Point,
}

impl WidgetContainer {
    pub fn new(enabled: bool, bounds: Rectangle, position: Point) -> (w: WidgetContainer)
        ensures
            w == (WidgetContainer { enabled, bounds, position }),
    {
        WidgetContainer { enabled, bounds, position }
    }

    /// The area of the window that the widget covers: its extent, laid at its
    /// position.
    pub open spec fn area(self) -> Rectangle {
        self.bounds.moved_to(self.position)
    }

    /// Whether a local pointer event at `point` is meant for this widget: the
    /// widget is enabled and the point lies in its area, edges included.
    pub open spec fn is_hit_by(self, point: Point) -> bool {
        self.enabled && self.area().holds(point.x as int, point.y as int)
    }
}

/// Tells whether a pointer event at the given point is meant for the widget.
///
/// A disabled widget is never hit. The edges of the widget's area belong to
/// it. A widget whose bounds have a negative width or height is hit by no
/// point.
pub fn check_mouse_condition(mouse_position: Point, widget: &WidgetContainer) -> (hit: bool)
    ensures
        hit == widget.is_hit_by(mouse_position),
        !widget.enabled ==> !hit,
{
    if !widget.enabled {
        return false;
    }
    let mut rect = Rectangle::new(0, 0, widget.bounds.width, widget.bounds.height);
    rect.set_x(widget.position.x);
    rect.set_y(widget.position.y);
    rect.contains(mouse_position)
}

/// A disabled widget is hit by no point.
pub proof fn lemma_disabled_is_never_hit(widget: WidgetContainer, point: Point)
    requires
        !widget.enabled,
    ensures
        !widget.is_hit_by(point),
{
}

/// The centre of an enabled widget hits it, provided neither its width nor
/// its height is negative.
pub proof fn lemma_center_is_hit(widget: WidgetContainer, point: Point)
    requires
        widget.enabled,
        widget.bounds.width >= 0,
        widget.bounds.height >= 0,
        point.x == widget.position.x + widget.bounds.width / 2,
        point.y == widget.position.y + widget.bounds.height / 2,
    ensures
        widget.is_hit_by(point),
{
}

/// The point one unit left of and one unit above a widget's position never
/// hits it.
pub proof fn lemma_before_corner_is_not_hit(widget: WidgetContainer, point: Point)
    requires
        point.x == widget.position.x - 1,
        point.y == widget.position.y - 1,
    ensures
        !widget.is_hit_by(point),
{
}

/// A widget whose bounds have a negative width or height is hit by no point.
pub proof fn lemma_negative_extent_is_never_hit(widget: WidgetContainer, point: Point)
    requires
        widget.bounds.width < 0 || widget.bounds.height < 0,
    ensures
        !widget.is_hit_by(point),
{
}

} // verus!
