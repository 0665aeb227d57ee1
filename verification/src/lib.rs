//! Routing of pointer input to typed callbacks attached to widgets.
//!
//! An event travels in an `EventBox`, which knows the type of the event it
//! holds. A handler owns a callback and takes events of one type: it tells
//! whether it takes the event in a container and, if so, reads the event and
//! runs the callback on what the event carries. A local event is offered to
//! the handlers of a widget only where `check_mouse_condition` finds the
//! pointer inside the widget; a global event goes to every listener and is
//! never consumed.
//!
//! Coordinates are whole device units held in `i64`. A toolkit that measures in
//! fractions of a pixel chooses its own scale before it hands positions in.

pub mod event;
pub mod geometry;
pub mod handler;
pub mod registration;
pub mod widget;
