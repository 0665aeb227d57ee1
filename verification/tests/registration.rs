use mouse_events::event::{
    ClickEvent, EventBox, GlobalMouseUpEvent, Mouse, MouseButton, MouseDownEvent, MouseMoveEvent,
    MouseUpEvent, ScrollEvent,
};
use mouse_events::geometry::Point;
use mouse_events::handler::EventHandler;
use mouse_events::registration::{MouseHandler, Widget};

/// The names of the callbacks that ran, in the order in which they ran.
type Log = Vec<&'static str>;

/// A widget that keeps its handlers and nothing else.
struct Button {
    handlers: Vec<Box<dyn EventHandler<Log>>>,
}

impl Button {
    fn new() -> Self {
        Button { handlers: Vec::new() }
    }

    /// Offers the event to every handler in the order of registration and
    /// tells what each of them answered.
    fn offer(&self, log: &mut Log, event: &EventBox) -> Vec<(bool, bool)> {
        self.handlers
            .iter()
            .map(|handler| (handler.handles_event(event), handler.handle_event(log, event)))
            .collect()
    }
}

impl<H: EventHandler<Log> + 'static> Widget<Log, H> for Button {
    fn insert_handler(mut self, handler: H) -> Self {
        self.handlers.push(Box::new(handler));
        self
    }
}

impl MouseHandler<Log> for Button {}

fn button_with_all_six() -> Button {
    Button::new()
        .on_click(|log: &mut Log, _: Point| {
            log.push("click");
            true
        })
        .on_mouse_down(|log: &mut Log, _: Mouse| {
            log.push("down");
            true
        })
        .on_mouse_up(|log: &mut Log, _: Mouse| {
            log.push("up");
            false
        })
        .on_global_mouse_up(|log: &mut Log, _: Mouse| {
            log.push("global up");
        })
        .on_mouse_move(|log: &mut Log, _: Point| {
            log.push("move");
            true
        })
        .on_scroll(|log: &mut Log, _: Point| {
            log.push("scroll");
            false
        })
}

fn answers_with_one_taken(index: usize, consumed: bool) -> Vec<(bool, bool)> {
    (0..6).map(|i| if i == index { (true, consumed) } else { (false, false) }).collect()
}

#[test]
fn registration_attaches_one_handler_for_each_call() {
    assert_eq!(Button::new().handlers.len(), 0);
    assert_eq!(Button::new().on_click(|_: &mut Log, _: Point| true).handlers.len(), 1);
    assert_eq!(button_with_all_six().handlers.len(), 6);
}

#[test]
fn registered_handlers_take_the_event_type_of_their_method() {
    let button = button_with_all_six();
    let mut log = Log::new();
    let click = EventBox::new(ClickEvent { position: Point::new(1, 1) });
    assert_eq!(button.offer(&mut log, &click), answers_with_one_taken(0, true));
    let down = EventBox::new(MouseDownEvent { button: MouseButton::Left, x: 1, y: 1 });
    assert_eq!(button.offer(&mut log, &down), answers_with_one_taken(1, true));
    let up = EventBox::new(MouseUpEvent { button: MouseButton::Left, x: 1, y: 1 });
    assert_eq!(button.offer(&mut log, &up), answers_with_one_taken(2, false));
    let global = EventBox::new(GlobalMouseUpEvent { button: MouseButton::Left, x: 1, y: 1 });
    assert_eq!(button.offer(&mut log, &global), answers_with_one_taken(3, false));
    let moved = EventBox::new(MouseMoveEvent { x: 1, y: 1 });
    assert_eq!(button.offer(&mut log, &moved), answers_with_one_taken(4, true));
    let scroll = EventBox::new(ScrollEvent { delta: Point::new(0, -1) });
    assert_eq!(button.offer(&mut log, &scroll), answers_with_one_taken(5, false));
    assert_eq!(log, vec!["click", "down", "up", "global up", "move", "scroll"]);
}

#[test]
fn handlers_of_one_type_run_in_the_order_of_registration() {
    let button = Button::new()
        .on_click(|log: &mut Log, _: Point| {
            log.push("first");
            false
        })
        .on_scroll(|log: &mut Log, _: Point| {
            log.push("scroll");
            true
        })
        .on_click(|log: &mut Log, _: Point| {
            log.push("second");
            true
        });
    let mut log = Log::new();
    let click = EventBox::new(ClickEvent { position: Point::new(1, 1) });
    assert_eq!(
        button.offer(&mut log, &click),
        vec![(true, false), (false, false), (true, true)]
    );
    assert_eq!(log, vec!["first", "second"]);
}

#[test]
fn registered_callback_gets_what_the_event_carries() {
    let button = Button::new()
        .on_mouse_down(|log: &mut Log, mouse: Mouse| {
            log.push("down");
            mouse == Mouse { button: MouseButton::Right, x: 4, y: 9 }
        })
        .on_scroll(|log: &mut Log, delta: Point| {
            log.push("scroll");
            delta == Point::new(0, -3)
        });
    let mut log = Log::new();
    let down = EventBox::new(MouseDownEvent { button: MouseButton::Right, x: 4, y: 9 });
    assert_eq!(button.offer(&mut log, &down), vec![(true, true), (false, false)]);
    let other = EventBox::new(MouseDownEvent { button: MouseButton::Left, x: 4, y: 9 });
    assert_eq!(button.offer(&mut log, &other), vec![(true, false), (false, false)]);
    let scroll = EventBox::new(ScrollEvent { delta: Point::new(0, -3) });
    assert_eq!(button.offer(&mut log, &scroll), vec![(false, false), (true, true)]);
    assert_eq!(log, vec!["down", "down", "scroll"]);
}
