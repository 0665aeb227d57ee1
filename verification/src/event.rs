//! The pointer events and the container that carries one of them to the
//! handlers of a widget.

use vstd::prelude::*;
use crate::geometry::Point;

verus! {

/// The buttons of a mouse.
#[derive(Clone, Copy, PartialEq, Eq, Structural, Debug)]
pub enum MouseButton {
    Left,
    Middle,
    Right,
}

/// What the callback of a button handler gets: the button and where the
/// pointer was.
#[derive(Clone, Copy, PartialEq, Eq, Structural, Debug)]
pub struct Mouse {
    /// The button that was pressed or released.
    pub button: MouseButton,
    /// The position of the pointer from the left edge of the window.
    pub x: i64,
    /// The position of the pointer from the upper edge of the window.
    pub y: i64,
}

/// The pointer has moved on the window.
#[derive(Clone, Copy, PartialEq, Eq, Structural, Debug)]
pub struct MouseMoveEvent {
    /// Where the pointer is now, from the left edge of the window.
    pub x: i64,
    /// Where the pointer is now, from the upper edge of the window.
    pub y: i64,
}

impl MouseMoveEvent {
    /// The position of the mouse, as the callback of a handler gets it.
    #[verifier::allow_in_spec]
    pub fn position(&self) -> Point
        returns
            (Point { x: self.x, y: self.y }),
    {
        Point { x: self.x, y: self.y }
    }
}

/// The mouse wheel was turned.
#[derive(Clone, Copy, PartialEq, Eq, Structural, Debug)]
pub struct ScrollEvent {
    /// How far to scroll, across and down.
    pub delta: Point,
}

/// A mouse button was released over the widget.
#[derive(Clone, Copy, PartialEq, Eq, Structural, Debug)]
pub struct MouseUpEvent {
    /// The button that was released.
    pub button: MouseButton,
    /// The position of the pointer from the left edge of the window.
    pub x: i64,
    /// The position of the pointer from the upper edge of the window.
    pub y: i64,
}

impl MouseUpEvent {
    /// The button and the position of the event, as the callback of a
    /// handler gets them.
    #[verifier::allow_in_spec]
    pub fn mouse(&self) -> Mouse
        returns
            (Mouse { button: self.button, x: self.x, y: self.y }),
    {
        Mouse { button: self.button, x: self.x, y: self.y }
    }
}

/// The widget was clicked.
#[derive(Clone, Copy, PartialEq, Eq, Structural, Debug)]
pub struct ClickEvent {
    /// Where on the window the click was.
    pub position: Point,
}

/// A mouse button was pressed over the widget.
#[derive(Clone, Copy, PartialEq, Eq, Structural, Debug)]
pub struct MouseDownEvent {
    /// The button that was pressed.
    pub button: MouseButton,
    /// The position of the pointer from the left edge of the window.
    pub x: i64,
    /// The position of the pointer from the upper edge of the window.
    pub y: i64,
}

impl MouseDownEvent {
    /// The button and the position of the event, as the callback of a
    /// handler gets them.
    #[verifier::allow_in_spec]
    pub fn mouse(&self) -> Mouse
        returns
            (Mouse { button: self.button, x: self.x, y: self.y }),
    {
        Mouse { button: self.button, x: self.x, y: self.y }
    }
}

/// A mouse button was released, anywhere on the window.
///
/// A global event goes to every listener and is consumed by none. It has the
/// fields of a `MouseUpEvent` and differs from it by its type alone.
#[derive(Clone, Copy, PartialEq, Eq, Structural, Debug)]
pub struct GlobalMouseUpEvent {
    /// The button that was released.
    pub button: MouseButton,
    /// The position of the pointer from the left edge of the window.
    pub x: i64,
    /// The position of the pointer from the upper edge of the window.
    pub y: i64,
}

impl GlobalMouseUpEvent {
    /// The button and the position of the event, as the callback of a
    /// handler gets them.
    #[verifier::allow_in_spec]
    pub fn mouse(&self) -> Mouse
        returns
            (Mouse { button: self.button, x: self.x, y: self.y }),
    {
        Mouse { button: self.button, x: self.x, y: self.y }
    }
}

/// One event of any of the six types.
#[derive(Clone, Copy, PartialEq, Eq, Structural, Debug)]
pub enum Payload {
    MouseMove(MouseMoveEvent),
    Scroll(ScrollEvent),
    MouseUp(MouseUpEvent),
    MouseDown(MouseDownEvent),
    Click(ClickEvent),
    GlobalMouseUp(GlobalMouseUpEvent),
}

/// The types of event, without their data.
#[derive(Clone, Copy, PartialEq, Eq, Structural, Debug)]
pub enum EventKind {
    MouseMove,
    Scroll,
    MouseUp,
    MouseDown,
    Click,
    GlobalMouseUp,
}

impl Payload {
    pub open spec fn kind(self) -> EventKind {
        match self {
            Payload::MouseMove(_) => EventKind::MouseMove,
            Payload::Scroll(_) => EventKind::Scroll,
            Payload::MouseUp(_) => EventKind::MouseUp,
            Payload::MouseDown(_) => EventKind::MouseDown,
            Payload::Click(_) => EventKind::Click,
            Payload::GlobalMouseUp(_) => EventKind::GlobalMouseUp,
        }
    }
}

/// An event type that an `EventBox` can carry.
pub trait Event: Sized {
    /// The tag under which a container keeps events of this type.
    spec fn kind() -> EventKind;

    /// This event as the content of a container.
    spec fn payload(self) -> Payload;

    /// The event of this type that the content of a container is, if it is
    /// one.
    spec fn of_payload(payload: Payload) -> Option<Self>;

    /// An event is stored under the tag of its type and read back as it was
    /// stored.
    proof fn lemma_stored(event: Self)
        ensures
            event.payload().kind() == Self::kind(),
            Self::of_payload(event.payload()) == Some(event),
    ;

    /// Content is read as this type exactly where it is under the tag of
    /// this type, and the event read is the one that is stored so.
    proof fn lemma_read(payload: Payload)
        ensures
            Self::of_payload(payload) is Some <==> payload.kind() == Self::kind(),
            Self::of_payload(payload) matches Some(event) ==> event.payload() == payload,
    ;

    /// The tag of this type.
    fn tag() -> (kind: EventKind)
        ensures
            kind == Self::kind(),
    ;

    /// Stores the event under the tag of its type.
    fn into_payload(self) -> (payload: Payload)
        ensures
            payload == self.payload(),
    ;

    /// Reads the content of a container as this type, where it is under
    /// the tag of this type, and gives `None` elsewhere.
    fn from_payload(payload: &Payload) -> (event: Option<&Self>)
        ensures
            match event {
                Some(read) => Self::of_payload(*payload) == Some(*read),
                None => Self::of_payload(*payload) is None,
            },
    ;
}

impl Event for MouseMoveEvent {
    open spec fn kind() -> EventKind {
        EventKind::MouseMove
    }

    open spec fn payload(self) -> Payload {
        Payload::MouseMove(self)
    }

    open spec fn of_payload(payload: Payload) -> Option<Self> {
        match payload {
            Payload::MouseMove(event) => Some(event),
            _ => None,
        }
    }

    proof fn lemma_stored(event: Self) {
    }

    proof fn lemma_read(payload: Payload) {
    }

    fn tag() -> (kind: EventKind) {
        EventKind::MouseMove
    }

    fn into_payload(self) -> (payload: Payload) {
        Payload::MouseMove(self)
    }

    fn from_payload(payload: &Payload) -> (event: Option<&Self>) {
        match payload {
            Payload::MouseMove(event) => Some(event),
            _ => None,
        }
    }
}

impl Event for ScrollEvent {
    open spec fn kind() -> EventKind {
        EventKind::Scroll
    }

    open spec fn payload(self) -> Payload {
        Payload::Scroll(self)
    }

    open spec fn of_payload(payload: Payload) -> Option<Self> {
        match payload {
            Payload::Scroll(event) => Some(event),
            _ => None,
        }
    }

    proof fn lemma_stored(event: Self) {
    }

    proof fn lemma_read(payload: Payload) {
    }

    fn tag() -> (kind: EventKind) {
        EventKind::Scroll
    }

    fn into_payload(self) -> (payload: Payload) {
        Payload::Scroll(self)
    }

    fn from_payload(payload: &Payload) -> (event: Option<&Self>) {
        match payload {
            Payload::Scroll(event) => Some(event),
            _ => None,
        }
    }
}

impl Event for MouseUpEvent {
    open spec fn kind() -> EventKind {
        EventKind::MouseUp
    }

    open spec fn payload(self) -> Payload {
        Payload::MouseUp(self)
    }

    open spec fn of_payload(payload: Payload) -> Option<Self> {
        match payload {
            Payload::MouseUp(event) => Some(event),
            _ => None,
        }
    }

    proof fn lemma_stored(event: Self) {
    }

    proof fn lemma_read(payload: Payload) {
    }

    fn tag() -> (kind: EventKind) {
        EventKind::MouseUp
    }

    fn into_payload(self) -> (payload: Payload) {
        Payload::MouseUp(self)
    }

    fn from_payload(payload: &Payload) -> (event: Option<&Self>) {
        match payload {
            Payload::MouseUp(event) => Some(event),
            _ => None,
        }
    }
}

impl Event for MouseDownEvent {
    open spec fn kind() -> EventKind {
        EventKind::MouseDown
    }

    open spec fn payload(self) -> Payload {
        Payload::MouseDown(self)
    }

    open spec fn of_payload(payload: Payload) -> Option<Self> {
        match payload {
            Payload::MouseDown(event) => Some(event),
            _ => None,
        }
    }

    proof fn lemma_stored(event: Self) {
    }

    proof fn lemma_read(payload: Payload) {
    }

    fn tag() -> (kind: EventKind) {
        EventKind::MouseDown
    }

    fn into_payload(self) -> (payload: Payload) {
        Payload::MouseDown(self)
    }

    fn from_payload(payload: &Payload) -> (event: Option<&Self>) {
        match payload {
            Payload::MouseDown(event) => Some(event),
            _ => None,
        }
    }
}

impl Event for ClickEvent {
    open spec fn kind() -> EventKind {
        EventKind::Click
    }

    open spec fn payload(self) -> Payload {
        Payload::Click(self)
    }

    open spec fn of_payload(payload: Payload) -> Option<Self> {
        match payload {
            Payload::Click(event) => Some(event),
            _ => None,
        }
    }

    proof fn lemma_stored(event: Self) {
    }

    proof fn lemma_read(payload: Payload) {
    }

    fn tag() -> (kind: EventKind) {
        EventKind::Click
    }

    fn into_payload(self) -> (payload: Payload) {
        Payload::Click(self)
    }

    fn from_payload(payload: &Payload) -> (event: Option<&Self>) {
        match payload {
            Payload::Click(event) => Some(event),
            _ => None,
        }
    }
}

impl Event for GlobalMouseUpEvent {
    open spec fn kind() -> EventKind {
        EventKind::GlobalMouseUp
    }

    open spec fn payload(self) -> Payload {
        Payload::GlobalMouseUp(self)
    }

    open spec fn of_payload(payload: Payload) -> Option<Self> {
        match payload {
            Payload::GlobalMouseUp(event) => Some(event),
            _ => None,
        }
    }

    proof fn lemma_stored(event: Self) {
    }

    proof fn lemma_read(payload: Payload) {
    }

    fn tag() -> (kind: EventKind) {
        EventKind::GlobalMouseUp
    }

    fn into_payload(self) -> (payload: Payload) {
        Payload::GlobalMouseUp(self)
    }

    fn from_payload(payload: &Payload) -> (event: Option<&Self>) {
        match payload {
            Payload::GlobalMouseUp(event) => Some(event),
            _ => None,
        }
    }
}

/// Why an event could not be read out of a container.
#[derive(Clone, Copy, PartialEq, Eq, Structural, Debug)]
pub enum DowncastError {
    /// The container holds an event of the type `found`, and one of the type
    /// `expected` was asked for.
    TypeMismatch { expected: EventKind, found: EventKind },
}

/// Carries one event of any of the six types, and knows of which type it is.
///
/// The event is kept as a `Payload`, whose variant is the tag: a container
/// cannot hold an event under the tag of another type.
#[derive(Debug)]
pub struct EventBox {
    payload: Payload,
}

impl View for EventBox {
    type V = Payload;

    closed spec fn view(&self) -> Payload {
        self.payload
    }
}

impl EventBox {
    /// Whether the event in the container is of the type `E`.
    pub open spec fn holds<E: Event>(&self) -> bool {
        self@.kind() == E::kind()
    }

    /// What reading the container as an `E` gives: the event, or the error
    /// that names both types.
    pub open spec fn read_as<E: Event>(&self) -> Result<E, DowncastError> {
        match E::of_payload(self@) {
            Some(event) => Ok(event),
            None => Err(DowncastError::TypeMismatch { expected: E::kind(), found: self@.kind() }),
        }
    }

    pub fn new<E: Event>(event: E) -> (container: EventBox)
        ensures
            container@ == event.payload(),
            container.holds::<E>(),
    {
        proof {
            E::lemma_stored(event);
        }
        EventBox { payload: event.into_payload() }
    }

    /// The type of the event in the container.
    pub fn event_kind(&self) -> (kind: EventKind)
        ensures
            kind == self@.kind(),
    {
        match self.payload {
            Payload::MouseMove(_) => EventKind::MouseMove,
            Payload::Scroll(_) => EventKind::Scroll,
            Payload::MouseUp(_) => EventKind::MouseUp,
            Payload::MouseDown(_) => EventKind::MouseDown,
            Payload::Click(_) => EventKind::Click,
            Payload::GlobalMouseUp(_) => EventKind::GlobalMouseUp,
        }
    }

    /// Checks if the event in the container is of the type `E`.
    pub fn is_type<E: Event>(&self) -> (yes: bool)
        ensures
            yes == self.holds::<E>(),
    {
        self.event_kind() == E::tag()
    }

    /// Reads the event as an `E`. This succeeds exactly where `is_type`
    /// answers `true` for `E`, and fails with `TypeMismatch` elsewhere. The
    /// container is left as it was, so that the next handler can try its own
    /// type.
    pub fn downcast_ref<E: Event>(&self) -> (read: Result<&E, DowncastError>)
        ensures
            read is Ok <==> self.holds::<E>(),
            match read {
                Ok(event) => self.read_as::<E>() == Ok::<E, DowncastError>(*event)
                    && event.payload() == self@,
                Err(error) => self.read_as::<E>() == Err::<E, DowncastError>(error),
            },
    {
        match E::from_payload(&self.payload) {
            Some(event) => {
                proof {
                    E::lemma_read(self@);
                }
                Ok(event)
            },
            None => {
                proof {
                    E::lemma_read(self@);
                }
                Err(DowncastError::TypeMismatch { expected: E::tag(), found: self.event_kind() })
            },
        }
    }
}

/// A container made from an event of the type `T` is of the type `T`, and it
/// is of a type `U` only where `U` has the tag of `T`.
pub proof fn lemma_container_is_of_the_type_it_was_made_from<T: Event, U: Event>(
    event: T,
    container: EventBox,
)
    requires
        container@ == event.payload(),
    ensures
        container.holds::<T>(),
        container.holds::<U>() <==> U::kind() == T::kind(),
{
    T::lemma_stored(event);
}

/// Each of the six event types has a tag of its own, so a container is of
/// exactly one of them: the one whose event it holds.
pub proof fn lemma_container_is_of_one_type(container: EventBox)
    ensures
        container.holds::<MouseMoveEvent>() <==> container@ is MouseMove,
        container.holds::<ScrollEvent>() <==> container@ is Scroll,
        container.holds::<MouseUpEvent>() <==> container@ is MouseUp,
        container.holds::<MouseDownEvent>() <==> container@ is MouseDown,
        container.holds::<ClickEvent>() <==> container@ is Click,
        container.holds::<GlobalMouseUpEvent>() <==> container@ is GlobalMouseUp,
{
}

/// Reading a container as an `E` succeeds exactly where the container is of
/// the type `E`. Where it succeeds it gives the event that the container
/// holds, and where it fails the error names the type asked for and the type
/// found.
pub proof fn lemma_read_succeeds_where_type_test_does<E: Event>(container: EventBox)
    ensures
        container.read_as::<E>() is Ok <==> container.holds::<E>(),
        container.read_as::<E>() matches Ok(event) ==> event.payload() == container@,
        !container.holds::<E>() ==> container.read_as::<E>() == Err::<E, DowncastError>(
            DowncastError::TypeMismatch { expected: E::kind(), found: container@.kind() },
        ),
{
    E::lemma_read(container@);
}

} // verus!
