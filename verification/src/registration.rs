//! Attaching handlers to a widget, one method for each type of event.

use vstd::prelude::*;
use crate::event::Mouse;
use crate::geometry::Point;
use crate::handler::{
    accepts_all, ClickEventHandler, EventHandler, GlobalMouseUpEventHandler,
    MouseDownEventHandler, MouseMoveEventHandler, MouseUpEventHandler, ScrollEventHandler,
};

verus! {

/// A widget to which handlers of the type `H` can be attached.
///
/// How a widget keeps its handlers is its own business, so nothing is asked
/// of `insert_handler` here. A widget that takes every type of handler
/// implements the trait for every `H`.
pub trait Widget<C, H: EventHandler<C>>: Sized {
    /// Attaches the handler to the widget and gives the widget back.
    fn insert_handler(self, handler: H) -> (widget: Self);
}

/// The registration of callbacks for pointer events. Every method wraps the
/// callback in the handler of its event type, attaches that handler to the
/// widget with `insert_handler` and gives back what `insert_handler` gives,
/// so that calls can be chained. Registration cannot fail.
///
/// A callback has to accept every application state and every argument, as
/// the handlers ask.
pub trait MouseHandler<C: 'static>: Sized {
    /// Attaches a callback for clicks.
    fn on_click<H: Fn(&mut C, Point) -> bool + 'static>(self, handler: H) -> (widget: Self)
        where
            Self: Widget<C, ClickEventHandler<C, H>>,
        requires
            accepts_all::<C, Point, bool, H>(handler),
        ensures
            exists|attached: ClickEventHandler<C, H>|
                attached.callback() == handler && call_ensures(
                    <Self as Widget<C, ClickEventHandler<C, H>>>::insert_handler,
                    (self, attached),
                    widget,
                ),
    {
        self.insert_handler(ClickEventHandler::new(handler))
    }

    /// Attaches a callback for mouse down events.
    fn on_mouse_down<H: Fn(&mut C, Mouse) -> bool + 'static>(self, handler: H) -> (widget: Self)
        where
            Self: Widget<C, MouseDownEventHandler<C, H>>,
        requires
            accepts_all::<C, Mouse, bool, H>(handler),
        ensures
            exists|attached: MouseDownEventHandler<C, H>|
                attached.callback() == handler && call_ensures(
                    <Self as Widget<C, MouseDownEventHandler<C, H>>>::insert_handler,
                    (self, attached),
                    widget,
                ),
    {
        self.insert_handler(MouseDownEventHandler::new(handler))
    }

    /// Attaches a callback for mouse up events.
    fn on_mouse_up<H: Fn(&mut C, Mouse) -> bool + 'static>(self, handler: H) -> (widget: Self)
        where
            Self: Widget<C, MouseUpEventHandler<C, H>>,
        requires
            accepts_all::<C, Mouse, bool, H>(handler),
        ensures
            exists|attached: MouseUpEventHandler<C, H>|
                attached.callback() == handler && call_ensures(
                    <Self as Widget<C, MouseUpEventHandler<C, H>>>::insert_handler,
                    (self, attached),
                    widget,
                ),
    {
        self.insert_handler(MouseUpEventHandler::new(handler))
    }

    /// Attaches a callback for global mouse up events.
    fn on_global_mouse_up<H: Fn(&mut C, Mouse) + 'static>(self, handler: H) -> (widget: Self)
        where
            Self: Widget<C, GlobalMouseUpEventHandler<C, H>>,
        requires
            accepts_all::<C, Mouse, (), H>(handler),
        ensures
            exists|attached: GlobalMouseUpEventHandler<C, H>|
                attached.callback() == handler && call_ensures(
                    <Self as Widget<C, GlobalMouseUpEventHandler<C, H>>>::insert_handler,
                    (self, attached),
                    widget,
                ),
    {
        self.insert_handler(GlobalMouseUpEventHandler::new(handler))
    }

    /// Attaches a callback for mouse move events.
    fn on_mouse_move<H: Fn(&mut C, Point) -> bool + 'static>(self, handler: H) -> (widget: Self)
        where
            Self: Widget<C, MouseMoveEventHandler<C, H>>,
        requires
            accepts_all::<C, Point, bool, H>(handler),
        ensures
            exists|attached: MouseMoveEventHandler<C, H>|
                attached.callback() == handler && call_ensures(
                    <Self as Widget<C, MouseMoveEventHandler<C, H>>>::insert_handler,
                    (self, attached),
                    widget,
                ),
    {
        self.insert_handler(MouseMoveEventHandler::new(handler))
    }

    /// Attaches a callback for scroll events.
    fn on_scroll<H: Fn(&mut C, Point) -> bool + 'static>(self, handler: H) -> (widget: Self)
        where
            Self: Widget<C, ScrollEventHandler<C, H>>,
        requires
            accepts_all::<C, Point, bool, H>(handler),
        ensures
            exists|attached: ScrollEventHandler<C, H>|
                attached.callback() == handler && call_ensures(
                    <Self as Widget<C, ScrollEventHandler<C, H>>>::insert_handler,
                    (self, attached),
                    widget,
                ),
    {
        self.insert_handler(ScrollEventHandler::new(handler))
    }
}

} // verus!
