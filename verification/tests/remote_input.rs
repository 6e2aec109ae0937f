use desplio::display::LiveVideoSource;
use desplio::input;
use desplio::input::DeviceEvent;
use desplio::input::InputError;
use desplio::input::InputInjector;
use desplio::input::InputTarget;
use desplio::input::PointerButton;
use desplio::input::PointerPhase;

fn target(x: u32, y: u32, width: u32, height: u32) -> InputTarget {
    InputTarget { x, y, width, height }
}

fn event(kind: u16, code: u16, value: i32) -> DeviceEvent {
    DeviceEvent { kind, code, value }
}

#[test]
fn targets_come_from_live_pictures() {
    let source =
        LiveVideoSource::X11Grab { display: ":0".to_string(), x: 1, y: 2, width: 3, height: 4 };
    let found = input::input_target_from_live_source(&source).unwrap();
    assert_eq!((found.x, found.y, found.width, found.height), (1, 2, 3, 4));
}

#[test]
fn pointers_are_set_up() {
    let injector = InputInjector::new(target(1920, 40, 1280, 800));
    assert_eq!((injector.max_x, injector.max_y), (3199, 839));
    assert_eq!(injector.button_codes(), [0x110, 0x111, 0x112]);
    assert_eq!(injector.wheel_codes(), [6, 8]);
    assert_eq!(InputInjector::device_name(), "Desplio Virtual Pointer");
    let injector = InputInjector::new(target(0, 0, 0, 1));
    assert_eq!((injector.max_x, injector.max_y), (1, 1));
    let injector = InputInjector::new(target(u32::MAX, 0, 5, 2_147_483_648));
    assert_eq!((injector.max_x, injector.max_y), (1, i32::MAX));
}

#[test]
fn the_kernel_numbers_buttons() {
    assert_eq!(input::button_key(PointerButton::Left), evdev::KeyCode::BTN_LEFT.0);
    assert_eq!(input::button_key(PointerButton::Middle), evdev::KeyCode::BTN_MIDDLE.0);
    assert_eq!(input::button_key(PointerButton::Right), evdev::KeyCode::BTN_RIGHT.0);
}

#[test]
fn pointers_move_and_click() {
    let injector = InputInjector::new(target(0, 0, 100, 100));
    let moves = [event(3, 0, 10), event(3, 1, 20)];
    assert_eq!(injector.pointer_event(PointerPhase::Move, 10, 20, None), moves);
    assert_eq!(
        injector.pointer_event(PointerPhase::Move, 10, 20, Some(PointerButton::Left)),
        moves
    );
    assert_eq!(injector.pointer_event(PointerPhase::Down, 10, 20, None), moves);
    assert_eq!(
        injector.pointer_event(PointerPhase::Down, 10, 20, Some(PointerButton::Right)),
        [moves[0], moves[1], event(1, 0x111, 1)]
    );
    assert_eq!(
        injector.pointer_event(PointerPhase::Up, 10, 20, Some(PointerButton::Right)),
        [moves[0], moves[1], event(1, 0x111, 0)]
    );
}

#[test]
fn wheels_turn() {
    let injector = InputInjector::new(target(0, 0, 100, 100));
    assert!(injector.wheel_event(0, 0).is_empty());
    assert_eq!(injector.wheel_event(0, 3), [event(2, 8, -3)]);
    assert_eq!(injector.wheel_event(-2, 0), [event(2, 6, -2)]);
    assert_eq!(injector.wheel_event(1, -1), [event(2, 8, 1), event(2, 6, 1)]);
}

#[test]
fn events_are_those_of_the_device() {
    let injector = InputInjector::new(target(0, 0, 100, 100));
    for button in [PointerButton::Left, PointerButton::Middle, PointerButton::Right] {
        let events = injector.pointer_event(PointerPhase::Down, 0, 0, Some(button));
        assert!(injector.button_codes().contains(&events[2].code));
    }
    for event in injector.wheel_event(1, 1) {
        assert!(injector.wheel_codes().contains(&event.code));
    }
}

#[test]
fn input_errors_in_words() {
    let err = InputError::Create("Permission denied".to_string());
    assert_eq!(err.message(), "failed to create uinput device: Permission denied");
}
