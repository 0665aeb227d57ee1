//! Handlers: each pairs a callback with the one event type that it takes.
//!
//! A callback gets the application state, which it may change, and what the
//! event carries. The type `C` of the application state is a parameter: the
//! handlers hand the state through and never look into it. A handler owns its
//! callback for as long as it lives and may run it any number of times.
//!
//! A callback is a closure or a function, so its type `F` is a parameter of
//! its handler. It has to accept every state and every argument, since a
//! handler runs it on whatever event arrives. `new` asks for that, and every
//! handler keeps it as its invariant, so `handle_event` can be called on any
//! event.
//!
//! The contract of every `handle_event` is stated twice. The trait states it
//! over `handled_kind` and `outcome`, for a caller that knows a handler only
//! as an `EventHandler`. Each handler states it again over its own callback,
//! for a caller that knows which handler it has.

use vstd::prelude::*;
use std::marker::PhantomData;
use std::rc::Rc;
use crate::event::{
    ClickEvent, EventBox, EventKind, GlobalMouseUpEvent, Mouse, MouseDownEvent, MouseMoveEvent,
    MouseUpEvent, Payload, ScrollEvent,
};
use crate::geometry::Point;

verus! {

/// What the handlers of a widget have in common.
pub trait EventHandler<C> {
    /// The type of event that the handler takes.
    spec fn handled_kind(&self) -> EventKind;

    /// One run of the handler on an event of its type: the callback ran once
    /// on what `event` carries, it found the application state as `state`
    /// has it and left it as `state` will have it, and the handler answered
    /// `consumed`.
    spec fn outcome(&self, state: &mut C, event: Payload, consumed: bool) -> bool;

    /// Checks if the handler takes the event in the container.
    fn handles_event(&self, event: &EventBox) -> (yes: bool)
        ensures
            yes == (event@.kind() == self.handled_kind()),
    ;

    /// Hands the event to the callback and answers whether the event is
    /// consumed. An event of another type is left alone: the callback does
    /// not run, the application state stays as it is, and the answer is
    /// `false`.
    fn handle_event(&self, state_context: &mut C, event: &EventBox) -> (consumed: bool)
        ensures
            event@.kind() != self.handled_kind() ==> !consumed && *final(state_context) == *old(
                state_context,
            ),
            event@.kind() == self.handled_kind() ==> exists|state: &mut C|
                *state == *old(state_context) && *final(state) == *final(state_context)
                    && self.outcome(state, event@, consumed),
    ;
}

/// The callback may be run on every application state and every argument.
pub open spec fn accepts_all<C, A, R, F: Fn(&mut C, A) -> R>(callback: F) -> bool {
    forall|state: &mut C, argument: A| call_requires(callback, (state, argument))
}

/// Takes the clicks on a widget: the callback gets the position of the click.
pub struct ClickEventHandler<C, F: Fn(&mut C, Point) -> bool> {
    handler: Rc<F>,
    context: PhantomData<C>,
}

impl<C, F: Fn(&mut C, Point) -> bool> ClickEventHandler<C, F> {
    #[verifier::type_invariant]
    spec fn callback_accepts_all(self) -> bool {
        accepts_all::<C, Point, bool, F>(*self.handler)
    }

    /// The callback that the handler owns.
    pub closed spec fn callback(&self) -> F {
        *self.handler
    }

    /// Makes a click handler that owns the callback.
    pub fn new(handler: F) -> (made: Self)
        requires
            accepts_all::<C, Point, bool, F>(handler),
        ensures
            made.callback() == handler,
    {
        ClickEventHandler { handler: Rc::new(handler), context: PhantomData }
    }
}

impl<C, F: Fn(&mut C, Point) -> bool> EventHandler<C> for ClickEventHandler<C, F> {
    open spec fn handled_kind(&self) -> EventKind {
        EventKind::Click
    }

    open spec fn outcome(&self, state: &mut C, event: Payload, consumed: bool) -> bool {
        event matches Payload::Click(click) && call_ensures(
            self.callback(),
            (state, click.position),
            consumed,
        )
    }

    fn handles_event(&self, event: &EventBox) -> (yes: bool)
        ensures
            yes == (event@ is Click),
    {
        event.is_type::<ClickEvent>()
    }

    /// Runs the callback on the position of a click
    /// and answers what the callback answers. Any other event is left alone.
    fn handle_event(&self, state_context: &mut C, event: &EventBox) -> (consumed: bool)
        ensures
            !(event@ is Click) ==> !consumed && *final(state_context) == *old(state_context),
            event@ matches Payload::Click(click) ==> exists|state: &mut C|
                *state == *old(state_context) && *final(state) == *final(state_context)
                    && call_ensures(self.callback(), (state, click.position), consumed),
    {
        proof {
            use_type_invariant(self);
        }
        match event.downcast_ref::<ClickEvent>() {
            Ok(event) => {
                let ghost before = *state_context;
                let consumed = (self.handler)(state_context, event.position);
                proof {
                    let state = choose|state: &mut C|
                        *state == before && *final(state) == *state_context && call_ensures(
                            self.callback(),
                            (state, event.position),
                            consumed,
                        );
                    assert(self.outcome(state, Payload::Click(*event), consumed));
                }
                consumed
            },
            Err(_) => false,
        }
    }
}

/// Takes the mouse down events of a widget: the callback gets the button and
/// the position.
pub struct MouseDownEventHandler<C, F: Fn(&mut C, Mouse) -> bool> {
    handler: Rc<F>,
    context: PhantomData<C>,
}

impl<C, F: Fn(&mut C, Mouse) -> bool> MouseDownEventHandler<C, F> {
    #[verifier::type_invariant]
    spec fn callback_accepts_all(self) -> bool {
        accepts_all::<C, Mouse, bool, F>(*self.handler)
    }

    /// The callback that the handler owns.
    pub closed spec fn callback(&self) -> F {
        *self.handler
    }

    /// Makes a mouse down handler that owns the callback.
    pub fn new(handler: F) -> (made: Self)
        requires
            accepts_all::<C, Mouse, bool, F>(handler),
        ensures
            made.callback() == handler,
    {
        MouseDownEventHandler { handler: Rc::new(handler), context: PhantomData }
    }
}

impl<C, F: Fn(&mut C, Mouse) -> bool> EventHandler<C> for MouseDownEventHandler<C, F> {
    open spec fn handled_kind(&self) -> EventKind {
        EventKind::MouseDown
    }

    open spec fn outcome(&self, state: &mut C, event: Payload, consumed: bool) -> bool {
        event matches Payload::MouseDown(down) && call_ensures(
            self.callback(),
            (state, down.mouse()),
            consumed,
        )
    }

    fn handles_event(&self, event: &EventBox) -> (yes: bool)
        ensures
            yes == (event@ is MouseDown),
    {
        event.is_type::<MouseDownEvent>()
    }

    /// Runs the callback on the button and the position of a mouse down event
    /// and answers what the callback answers. Any other event is left alone.
    fn handle_event(&self, state_context: &mut C, event: &EventBox) -> (consumed: bool)
        ensures
            !(event@ is MouseDown) ==> !consumed && *final(state_context) == *old(state_context),
            event@ matches Payload::MouseDown(down) ==> exists|state: &mut C|
                *state == *old(state_context) && *final(state) == *final(state_context)
                    && call_ensures(self.callback(), (state, down.mouse()), consumed),
    {
        proof {
            use_type_invariant(self);
        }
        match event.downcast_ref::<MouseDownEvent>() {
            Ok(event) => {
                let ghost before = *state_context;
                let consumed = (self.handler)(state_context, event.mouse());
                proof {
                    let state = choose|state: &mut C|
                        *state == before && *final(state) == *state_context && call_ensures(
                            self.callback(),
                            (state, event.mouse()),
                            consumed,
                        );
                    assert(self.outcome(state, Payload::MouseDown(*event), consumed));
                }
                consumed
            },
            Err(_) => false,
        }
    }
}

/// Takes the global mouse up events: the callback gets the button and the
/// position. Every listener gets to see a global event, so the callback
/// answers nothing and the handler never consumes the event.
pub struct GlobalMouseUpEventHandler<C, F: Fn(&mut C, Mouse)> {
    handler: Rc<F>,
    context: PhantomData<C>,
}

impl<C, F: Fn(&mut C, Mouse)> GlobalMouseUpEventHandler<C, F> {
    #[verifier::type_invariant]
    spec fn callback_accepts_all(self) -> bool {
        accepts_all::<C, Mouse, (), F>(*self.handler)
    }

    /// The callback that the handler owns.
    pub closed spec fn callback(&self) -> F {
        *self.handler
    }

    /// Makes a global mouse up handler that owns the callback.
    pub fn new(handler: F) -> (made: Self)
        requires
            accepts_all::<C, Mouse, (), F>(handler),
        ensures
            made.callback() == handler,
    {
        GlobalMouseUpEventHandler { handler: Rc::new(handler), context: PhantomData }
    }
}

impl<C, F: Fn(&mut C, Mouse)> EventHandler<C> for GlobalMouseUpEventHandler<C, F> {
    open spec fn handled_kind(&self) -> EventKind {
        EventKind::GlobalMouseUp
    }

    open spec fn outcome(&self, state: &mut C, event: Payload, consumed: bool) -> bool {
        event matches Payload::GlobalMouseUp(up) && !consumed && call_ensures(
            self.callback(),
            (state, up.mouse()),
            (),
        )
    }

    fn handles_event(&self, event: &EventBox) -> (yes: bool)
        ensures
            yes == (event@ is GlobalMouseUp),
    {
        event.is_type::<GlobalMouseUpEvent>()
    }

    /// Runs the callback on the button and the position of a global mouse up
    /// event. The answer is `false` on every event, whatever the callback
    /// does. Any other event is left alone.
    fn handle_event(&self, state_context: &mut C, event: &EventBox) -> (consumed: bool)
        ensures
            !consumed,
            !(event@ is GlobalMouseUp) ==> *final(state_context) == *old(state_context),
            event@ matches Payload::GlobalMouseUp(up) ==> exists|state: &mut C|
                *state == *old(state_context) && *final(state) == *final(state_context)
                    && call_ensures(self.callback(), (state, up.mouse()), ()),
    {
        proof {
            use_type_invariant(self);
        }
        match event.downcast_ref::<GlobalMouseUpEvent>() {
            Ok(event) => {
                let ghost before = *state_context;
                (self.handler)(state_context, event.mouse());
                let consumed = false;
                proof {
                    let state = choose|state: &mut C|
                        *state == before && *final(state) == *state_context && call_ensures(
                            self.callback(),
                            (state, event.mouse()),
                            (),
                        );
                    assert(self.outcome(state, Payload::GlobalMouseUp(*event), consumed));
                }
                consumed
            },
            Err(_) => false,
        }
    }
}

/// Takes the mouse up events of a widget: the callback gets the button and
/// the position.
pub struct MouseUpEventHandler<C, F: Fn(&mut C, Mouse) -> bool> {
    handler: Rc<F>,
    context: PhantomData<C>,
}

impl<C, F: Fn(&mut C, Mouse) -> bool> MouseUpEventHandler<C, F> {
    #[verifier::type_invariant]
    spec fn callback_accepts_all(self) -> bool {
        accepts_all::<C, Mouse, bool, F>(*self.handler)
    }

    /// The callback that the handler owns.
    pub closed spec fn callback(&self) -> F {
        *self.handler
    }

    /// Makes a mouse up handler that owns the callback.
    pub fn new(handler: F) -> (made: Self)
        requires
            accepts_all::<C, Mouse, bool, F>(handler),
        ensures
            made.callback() == handler,
    {
        MouseUpEventHandler { handler: Rc::new(handler), context: PhantomData }
    }
}

impl<C, F: Fn(&mut C, Mouse) -> bool> EventHandler<C> for MouseUpEventHandler<C, F> {
    open spec fn handled_kind(&self) -> EventKind {
        EventKind::MouseUp
    }

    open spec fn outcome(&self, state: &mut C, event: Payload, consumed: bool) -> bool {
        event matches Payload::MouseUp(up) && call_ensures(
            self.callback(),
            (state, up.mouse()),
            consumed,
        )
    }

    fn handles_event(&self, event: &EventBox) -> (yes: bool)
        ensures
            yes == (event@ is MouseUp),
    {
        event.is_type::<MouseUpEvent>()
    }

    /// Runs the callback on the button and the position of a mouse up event
    /// and answers what the callback answers. Any other event is left alone.
    fn handle_event(&self, state_context: &mut C, event: &EventBox) -> (consumed: bool)
        ensures
            !(event@ is MouseUp) ==> !consumed && *final(state_context) == *old(state_context),
            event@ matches Payload::MouseUp(up) ==> exists|state: &mut C|
                *state == *old(state_context) && *final(state) == *final(state_context)
                    && call_ensures(self.callback(), (state, up.mouse()), consumed),
    {
        proof {
            use_type_invariant(self);
        }
        match event.downcast_ref::<MouseUpEvent>() {
            Ok(event) => {
                let ghost before = *state_context;
                let consumed = (self.handler)(state_context, event.mouse());
                proof {
                    let state = choose|state: &mut C|
                        *state == before && *final(state) == *state_context && call_ensures(
                            self.callback(),
                            (state, event.mouse()),
                            consumed,
                        );
                    assert(self.outcome(state, Payload::MouseUp(*event), consumed));
                }
                consumed
            },
            Err(_) => false,
        }
    }
}

/// Takes the mouse move events of a widget: the callback gets the position of
/// the pointer.
pub struct MouseMoveEventHandler<C, F: Fn(&mut C, Point) -> bool> {
    handler: Rc<F>,
    context: PhantomData<C>,
}

impl<C, F: Fn(&mut C, Point) -> bool> MouseMoveEventHandler<C, F> {
    #[verifier::type_invariant]
    spec fn callback_accepts_all(self) -> bool {
        accepts_all::<C, Point, bool, F>(*self.handler)
    }

    /// The callback that the handler owns.
    pub closed spec fn callback(&self) -> F {
        *self.handler
    }

    /// Makes a mouse move handler that owns the callback.
    pub fn new(handler: F) -> (made: Self)
        requires
            accepts_all::<C, Point, bool, F>(handler),
        ensures
            made.callback() == handler,
    {
        MouseMoveEventHandler { handler: Rc::new(handler), context: PhantomData }
    }
}

impl<C, F: Fn(&mut C, Point) -> bool> EventHandler<C> for MouseMoveEventHandler<C, F> {
    open spec fn handled_kind(&self) -> EventKind {
        EventKind::MouseMove
    }

    open spec fn outcome(&self, state: &mut C, event: Payload, consumed: bool) -> bool {
        event matches Payload::MouseMove(moved) && call_ensures(
            self.callback(),
            (state, moved.position()),
            consumed,
        )
    }

    fn handles_event(&self, event: &EventBox) -> (yes: bool)
        ensures
            yes == (event@ is MouseMove),
    {
        event.is_type::<MouseMoveEvent>()
    }

    /// Runs the callback on the position of a mouse move event
    /// and answers what the callback answers. Any other event is left alone.
    fn handle_event(&self, state_context: &mut C, event: &EventBox) -> (consumed: bool)
        ensures
            !(event@ is MouseMove) ==> !consumed && *final(state_context) == *old(state_context),
            event@ matches Payload::MouseMove(moved) ==> exists|state: &mut C|
                *state == *old(state_context) && *final(state) == *final(state_context)
                    && call_ensures(self.callback(), (state, moved.position()), consumed),
    {
        proof {
            use_type_invariant(self);
        }
        match event.downcast_ref::<MouseMoveEvent>() {
            Ok(event) => {
                let ghost before = *state_context;
                let consumed = (self.handler)(state_context, event.position());
                proof {
                    let state = choose|state: &mut C|
                        *state == before && *final(state) == *state_context && call_ensures(
                            self.callback(),
                            (state, event.position()),
                            consumed,
                        );
                    assert(self.outcome(state, Payload::MouseMove(*event), consumed));
                }
                consumed
            },
            Err(_) => false,
        }
    }
}

/// Takes the scroll events of a widget: the callback gets the offset.
pub struct ScrollEventHandler<C, F: Fn(&mut C, Point) -> bool> {
    handler: Rc<F>,
    context: PhantomData<C>,
}

impl<C, F: Fn(&mut C, Point) -> bool> ScrollEventHandler<C, F> {
    #[verifier::type_invariant]
    spec fn callback_accepts_all(self) -> bool {
        accepts_all::<C, Point, bool, F>(*self.handler)
    }

    /// The callback that the handler owns.
    pub closed spec fn callback(&self) -> F {
        *self.handler
    }

    /// Makes a scroll handler that owns the callback.
    pub fn new(handler: F) -> (made: Self)
        requires
            accepts_all::<C, Point, bool, F>(handler),
        ensures
            made.callback() == handler,
    {
        ScrollEventHandler { handler: Rc::new(handler), context: PhantomData }
    }
}

impl<C, F: Fn(&mut C, Point) -> bool> EventHandler<C> for ScrollEventHandler<C, F> {
    open spec fn handled_kind(&self) -> EventKind {
        EventKind::Scroll
    }

    open spec fn outcome(&self, state: &mut C, event: Payload, consumed: bool) -> bool {
        event matches Payload::Scroll(scroll) && call_ensures(
            self.callback(),
            (state, scroll.delta),
            consumed,
        )
    }

    fn handles_event(&self, event: &EventBox) -> (yes: bool)
        ensures
            yes == (event@ is Scroll),
    {
        event.is_type::<ScrollEvent>()
    }

    /// Runs the callback on the offset of a scroll event
    /// and answers what the callback answers. Any other event is left alone.
    fn handle_event(&self, state_context: &mut C, event: &EventBox) -> (consumed: bool)
        ensures
            !(event@ is Scroll) ==> !consumed && *final(state_context) == *old(state_context),
            event@ matches Payload::Scroll(scroll) ==> exists|state: &mut C|
                *state == *old(state_context) && *final(state) == *final(state_context)
                    && call_ensures(self.callback(), (state, scroll.delta), consumed),
    {
        proof {
            use_type_invariant(self);
        }
        match event.downcast_ref::<ScrollEvent>() {
            Ok(event) => {
                let ghost before = *state_context;
                let consumed = (self.handler)(state_context, event.delta);
                proof {
                    let state = choose|state: &mut C|
                        *state == before && *final(state) == *state_context && call_ensures(
                            self.callback(),
                            (state, event.delta),
                            consumed,
                        );
                    assert(self.outcome(state, Payload::Scroll(*event), consumed));
                }
                consumed
            },
            Err(_) => false,
        }
    }
}

} // verus!
