use mouse_events::event::{
    ClickEvent, DowncastError, EventBox, EventKind, GlobalMouseUpEvent, Mouse, MouseButton,
    MouseDownEvent, MouseMoveEvent, MouseUpEvent, ScrollEvent,
};
use mouse_events::geometry::Point;

fn type_tests(container: &EventBox) -> [bool; 6] {
    [
        container.is_type::<MouseMoveEvent>(),
        container.is_type::<ScrollEvent>(),
        container.is_type::<MouseUpEvent>(),
        container.is_type::<MouseDownEvent>(),
        container.is_type::<ClickEvent>(),
        container.is_type::<GlobalMouseUpEvent>(),
    ]
}

fn downcasts(container: &EventBox) -> [bool; 6] {
    [
        container.downcast_ref::<MouseMoveEvent>().is_ok(),
        container.downcast_ref::<ScrollEvent>().is_ok(),
        container.downcast_ref::<MouseUpEvent>().is_ok(),
        container.downcast_ref::<MouseDownEvent>().is_ok(),
        container.downcast_ref::<ClickEvent>().is_ok(),
        container.downcast_ref::<GlobalMouseUpEvent>().is_ok(),
    ]
}

fn one_of_each() -> Vec<EventBox> {
    vec![
        EventBox::new(MouseMoveEvent { x: 1, y: 2 }),
        EventBox::new(ScrollEvent { delta: Point::new(3, 4) }),
        EventBox::new(MouseUpEvent { button: MouseButton::Left, x: 5, y: 6 }),
        EventBox::new(MouseDownEvent { button: MouseButton::Middle, x: 7, y: 8 }),
        EventBox::new(ClickEvent { position: Point::new(9, 10) }),
        EventBox::new(GlobalMouseUpEvent { button: MouseButton::Right, x: 11, y: 12 }),
    ]
}

#[test]
fn container_is_of_the_type_it_was_made_from_and_of_no_other() {
    for (made_from, container) in one_of_each().iter().enumerate() {
        let answers = type_tests(container);
        for (asked, answer) in answers.iter().enumerate() {
            assert_eq!(*answer, asked == made_from);
        }
    }
}

#[test]
fn downcast_succeeds_exactly_where_the_type_test_does() {
    for container in one_of_each().iter() {
        assert_eq!(downcasts(container), type_tests(container));
    }
}

#[test]
fn event_kind_names_the_type() {
    let kinds: Vec<EventKind> = one_of_each().iter().map(|c| c.event_kind()).collect();
    assert_eq!(
        kinds,
        vec![
            EventKind::MouseMove,
            EventKind::Scroll,
            EventKind::MouseUp,
            EventKind::MouseDown,
            EventKind::Click,
            EventKind::GlobalMouseUp,
        ]
    );
}

#[test]
fn downcast_gives_the_event_that_was_stored() {
    let all = one_of_each();
    assert_eq!(all[0].downcast_ref::<MouseMoveEvent>(), Ok(&MouseMoveEvent { x: 1, y: 2 }));
    assert_eq!(all[1].downcast_ref::<ScrollEvent>(), Ok(&ScrollEvent { delta: Point::new(3, 4) }));
    assert_eq!(
        all[2].downcast_ref::<MouseUpEvent>(),
        Ok(&MouseUpEvent { button: MouseButton::Left, x: 5, y: 6 })
    );
    assert_eq!(
        all[3].downcast_ref::<MouseDownEvent>(),
        Ok(&MouseDownEvent { button: MouseButton::Middle, x: 7, y: 8 })
    );
    assert_eq!(
        all[4].downcast_ref::<ClickEvent>(),
        Ok(&ClickEvent { position: Point::new(9, 10) })
    );
    assert_eq!(
        all[5].downcast_ref::<GlobalMouseUpEvent>(),
        Ok(&GlobalMouseUpEvent { button: MouseButton::Right, x: 11, y: 12 })
    );
}

#[test]
fn downcast_to_another_type_is_a_type_mismatch() {
    let container = EventBox::new(ClickEvent { position: Point::new(5, 5) });
    assert_eq!(
        container.downcast_ref::<MouseUpEvent>(),
        Err(DowncastError::TypeMismatch { expected: EventKind::MouseUp, found: EventKind::Click })
    );
    assert_eq!(
        container.downcast_ref::<ScrollEvent>(),
        Err(DowncastError::TypeMismatch { expected: EventKind::Scroll, found: EventKind::Click })
    );
}

#[test]
fn mouse_up_and_global_mouse_up_are_told_apart() {
    let local = EventBox::new(MouseUpEvent { button: MouseButton::Left, x: 1, y: 1 });
    let global = EventBox::new(GlobalMouseUpEvent { button: MouseButton::Left, x: 1, y: 1 });
    assert!(local.is_type::<MouseUpEvent>());
    assert!(!local.is_type::<GlobalMouseUpEvent>());
    assert!(global.is_type::<GlobalMouseUpEvent>());
    assert!(!global.is_type::<MouseUpEvent>());
    assert_eq!(
        global.downcast_ref::<MouseUpEvent>(),
        Err(DowncastError::TypeMismatch {
            expected: EventKind::MouseUp,
            found: EventKind::GlobalMouseUp,
        })
    );
}

#[test]
fn container_can_be_read_many_times() {
    let container = EventBox::new(MouseMoveEvent { x: -3, y: 8 });
    for _ in 0..3 {
        assert!(container.downcast_ref::<ClickEvent>().is_err());
        assert_eq!(container.downcast_ref::<MouseMoveEvent>(), Ok(&MouseMoveEvent { x: -3, y: 8 }));
        assert!(container.is_type::<MouseMoveEvent>());
    }
}

#[test]
fn button_events_give_their_button_and_position() {
    let expected = Mouse { button: MouseButton::Middle, x: -7, y: 8 };
    assert_eq!(MouseDownEvent { button: MouseButton::Middle, x: -7, y: 8 }.mouse(), expected);
    assert_eq!(MouseUpEvent { button: MouseButton::Middle, x: -7, y: 8 }.mouse(), expected);
    assert_eq!(GlobalMouseUpEvent { button: MouseButton::Middle, x: -7, y: 8 }.mouse(), expected);
    assert_ne!(MouseUpEvent { button: MouseButton::Left, x: -7, y: 8 }.mouse(), expected);
}

#[test]
fn mouse_move_event_gives_its_position() {
    assert_eq!(MouseMoveEvent { x: 3, y: -4 }.position(), Point::new(3, -4));
}
