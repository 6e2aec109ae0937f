//! Remote input: the virtual pointer, and the events that it emits.
use vstd::prelude::*;

use crate::display::LiveVideoSource;

verus! {

/// The part of the screen that the pointer moves in.
#[derive(Debug, Clone, Copy)]
pub struct InputTarget {
    pub x: u32,
    pub y: u32,
    pub width: u32,
    pub height: u32,
}

/// What the pointer does.
#[derive(Debug, Clone, Copy, PartialEq, Eq, Structural)]
pub enum PointerPhase {
    Move,
    Down,
    Up,
}

/// A button of the pointer.
#[derive(Debug, Clone, Copy, PartialEq, Eq, Structural)]
pub enum PointerButton {
    Left,
    Middle,
    Right,
}

/// Why there is no virtual pointer.
#[derive(Debug, Clone)]
pub enum InputError {
    Create(String),
}

impl InputError {
    /// The error in words.
    pub open spec fn text(self) -> Seq<char> {
        match self {
            InputError::Create(why) => "failed to create uinput device: "@ + why@,
        }
    }

    /// The error in words.
    pub fn message(&self) -> (out: String)
        ensures
            out@ == self.text(),
    {
        match self {
            InputError::Create(why) => "failed to create uinput device: ".to_owned().concat(
                why.as_str(),
            ),
        }
    }
}

/// The part of the screen that a live picture shows.
pub fn input_target_from_live_source(source: &LiveVideoSource) -> (out: Option<InputTarget>)
    ensures
        match *source {
            LiveVideoSource::X11Grab { display, x, y, width, height } => out == Some(
                InputTarget { x, y, width, height },
            ),
        },
{
    match source {
        LiveVideoSource::X11Grab { display: _, x, y, width, height } => Some(
            InputTarget { x: *x, y: *y, width: *width, height: *height },
        ),
    }
}

/// The numbers that the kernel gives events, axes and buttons.
#[derive(Debug, Clone, Copy)]
pub struct EventCodes {
    pub key: u16,
    pub relative: u16,
    pub absolute: u16,
    pub abs_x: u16,
    pub abs_y: u16,
    pub rel_hwheel: u16,
    pub rel_wheel: u16,
    pub btn_left: u16,
    pub btn_right: u16,
    pub btn_middle: u16,
}

/// The numbers that the kernel gives events, axes and buttons.
pub open spec fn event_codes() -> EventCodes {
    EventCodes {
        key: 1,
        relative: 2,
        absolute: 3,
        abs_x: 0,
        abs_y: 1,
        rel_hwheel: 6,
        rel_wheel: 8,
        btn_left: 0x110,
        btn_right: 0x111,
        btn_middle: 0x112,
    }
}

/// Reads the constants of `evdev`'s `EventType`, `AbsoluteAxisCode`, `RelativeAxisCode` and
/// `KeyCode`. They are the numbers of the kernel's event interface.
#[verifier::external_body]
fn evdev_codes() -> (codes: EventCodes)
    ensures
        codes == event_codes(),
{
    EventCodes {
        key: evdev::EventType::KEY.0,
        relative: evdev::EventType::RELATIVE.0,
        absolute: evdev::EventType::ABSOLUTE.0,
        abs_x: evdev::AbsoluteAxisCode::ABS_X.0,
        abs_y: evdev::AbsoluteAxisCode::ABS_Y.0,
        rel_hwheel: evdev::RelativeAxisCode::REL_HWHEEL.0,
        rel_wheel: evdev::RelativeAxisCode::REL_WHEEL.0,
        btn_left: evdev::KeyCode::BTN_LEFT.0,
        btn_right: evdev::KeyCode::BTN_RIGHT.0,
        btn_middle: evdev::KeyCode::BTN_MIDDLE.0,
    }
}

/// A set of keys, held by `evdev`.
#[verifier::external_body]
pub struct KeySet {
    keys: evdev::AttributeSet<evdev::KeyCode>,
}

/// A set of relative axes, held by `evdev`.
#[verifier::external_body]
pub struct AxisSet {
    axes: evdev::AttributeSet<evdev::RelativeAxisCode>,
}

/// The codes of the keys in a set.
pub uninterp spec fn keys_in(set: KeySet) -> Set<u16>;

/// The codes of the axes in a set.
pub uninterp spec fn axes_in(set: AxisSet) -> Set<u16>;

/// The codes of a set as they are handed out: each once, the smallest first.
pub open spec fn lists_codes(list: Seq<u16>, set: Set<u16>) -> bool {
    &&& forall|i: int, j: int| 0 <= i < j < list.len() ==> list[i] < list[j]
    &&& forall|code: u16| #[trigger] set.contains(code) <==> list.contains(code)
}

/// Calls `AttributeSet::<KeyCode>::new`: the set is empty.
#[verifier::external_body]
fn no_keys() -> (set: KeySet)
    ensures
        keys_in(set) == Set::<u16>::empty(),
{
    KeySet { keys: evdev::AttributeSet::new() }
}

/// Calls `AttributeSetRef::<KeyCode>::insert`: the key is in the set from then on. A set has room
/// for keys up to `KEY_MAX`.
#[verifier::external_body]
fn put_key(set: &mut KeySet, code: u16)
    requires
        code <= 0x2ff,
    ensures
        keys_in(*final(set)) == keys_in(*old(set)).insert(code),
{
    set.keys.insert(evdev::KeyCode(code))
}

/// Calls `AttributeSetRef::<KeyCode>::iter`, which goes through the bits of the set in ascending
/// order.
#[verifier::external_body]
fn list_keys(set: &KeySet) -> (out: Vec<u16>)
    ensures
        lists_codes(out@, keys_in(*set)),
{
    set.keys.iter().map(|key| key.0).collect()
}

/// Calls `AttributeSet::<RelativeAxisCode>::new`: the set is empty.
#[verifier::external_body]
fn no_axes() -> (set: AxisSet)
    ensures
        axes_in(set) == Set::<u16>::empty(),
{
    AxisSet { axes: evdev::AttributeSet::new() }
}

/// Calls `AttributeSetRef::<RelativeAxisCode>::insert`: the axis is in the set from then on. A set
/// has room for axes up to `REL_MAX`.
#[verifier::external_body]
fn put_axis(set: &mut AxisSet, code: u16)
    requires
        code <= 0x0f,
    ensures
        axes_in(*final(set)) == axes_in(*old(set)).insert(code),
{
    set.axes.insert(evdev::RelativeAxisCode(code))
}

/// Calls `AttributeSetRef::<RelativeAxisCode>::iter`, which goes through the bits of the set in
/// ascending order.
#[verifier::external_body]
fn list_axes(set: &AxisSet) -> (out: Vec<u16>)
    ensures
        lists_codes(out@, axes_in(*set)),
{
    set.axes.iter().map(|axis| axis.0).collect()
}

/// The largest position of an axis that starts at `origin` and is `extent` long: at least 1, and 1
/// where 31 bits cannot count it.
pub open spec fn axis_limit(origin: u32, extent: u32) -> int {
    let end = if origin + extent > u32::MAX {
        u32::MAX as int
    } else {
        origin + extent
    };
    if end - 1 > i32::MAX || end - 1 < 1 {
        1
    } else {
        end - 1
    }
}

fn axis_max(origin: u32, extent: u32) -> (out: i32)
    ensures
        out == axis_limit(origin, extent),
{
    let end: u32 = origin.saturating_add(extent);
    let last: u32 = if end == 0 {
        0
    } else {
        end - 1
    };
    if last > i32::MAX as u32 || last < 1 {
        1
    } else {
        last as i32
    }
}

/// An event of an input device.
#[derive(Debug, Clone, Copy, PartialEq, Eq, Structural)]
pub struct DeviceEvent {
    pub kind: u16,
    pub code: u16,
    pub value: i32,
}

/// The number of a button.
pub open spec fn key_of(button: PointerButton) -> u16 {
    match button {
        PointerButton::Left => event_codes().btn_left,
        PointerButton::Middle => event_codes().btn_middle,
        PointerButton::Right => event_codes().btn_right,
    }
}

/// The number of a button.
pub fn button_key(button: PointerButton) -> (code: u16)
    ensures
        code == key_of(button),
{
    let codes: EventCodes = evdev_codes();
    match button {
        PointerButton::Left => codes.btn_left,
        PointerButton::Middle => codes.btn_middle,
        PointerButton::Right => codes.btn_right,
    }
}

/// The events that put the pointer at (`x`, `y`).
pub open spec fn moves(x: i32, y: i32) -> Seq<DeviceEvent> {
    seq![
        DeviceEvent { kind: event_codes().absolute, code: event_codes().abs_x, value: x },
        DeviceEvent { kind: event_codes().absolute, code: event_codes().abs_y, value: y },
    ]
}

/// The events of a pointer that is at (`x`, `y`): it is put there, and then a button that is named
/// goes down or up.
pub open spec fn pointer_events(
    phase: PointerPhase,
    x: i32,
    y: i32,
    button: Option<PointerButton>,
) -> Seq<DeviceEvent> {
    match (button, phase) {
        (Some(named), PointerPhase::Down) => moves(x, y).push(
            DeviceEvent { kind: event_codes().key, code: key_of(named), value: 1 },
        ),
        (Some(named), PointerPhase::Up) => moves(x, y).push(
            DeviceEvent { kind: event_codes().key, code: key_of(named), value: 0 },
        ),
        _ => moves(x, y),
    }
}

/// The events of a wheel that was turned: down and right are positive, and only what was turned is
/// told.
pub open spec fn wheel_events(wheel_x: i32, wheel_y: i32) -> Seq<DeviceEvent> {
    let vertical = if wheel_y != 0 {
        seq![
            DeviceEvent {
                kind: event_codes().relative,
                code: event_codes().rel_wheel,
                value: (-wheel_y) as i32,
            },
        ]
    } else {
        Seq::empty()
    };
    let horizontal = if wheel_x != 0 {
        seq![
            DeviceEvent {
                kind: event_codes().relative,
                code: event_codes().rel_hwheel,
                value: wheel_x,
            },
        ]
    } else {
        Seq::empty()
    };
    vertical + horizontal
}

/// A virtual pointer: how it is set up, and where it moves.
pub struct InputInjector {
    pub target: InputTarget,
    pub max_x: i32,
    pub max_y: i32,
    pub buttons: KeySet,
    pub wheels: AxisSet,
}

impl InputInjector {
    /// The name of the virtual device.
    pub fn device_name() -> (out: &'static str)
        ensures
            out@ == "Desplio Virtual Pointer"@,
    {
        "Desplio Virtual Pointer"
    }

    /// A pointer that moves in `target` and has three buttons and two wheels.
    pub fn new(target: InputTarget) -> (out: InputInjector)
        ensures
            out.target == target,
            out.max_x == axis_limit(target.x, target.width),
            out.max_y == axis_limit(target.y, target.height),
            keys_in(out.buttons) == set![
                event_codes().btn_left,
                event_codes().btn_middle,
                event_codes().btn_right,
            ],
            axes_in(out.wheels) == set![event_codes().rel_wheel, event_codes().rel_hwheel],
    {
        let codes: EventCodes = evdev_codes();
        let mut buttons: KeySet = no_keys();
        put_key(&mut buttons, codes.btn_left);
        put_key(&mut buttons, codes.btn_middle);
        put_key(&mut buttons, codes.btn_right);
        let mut wheels: AxisSet = no_axes();
        put_axis(&mut wheels, codes.rel_wheel);
        put_axis(&mut wheels, codes.rel_hwheel);
        InputInjector {
            target,
            max_x: axis_max(target.x, target.width),
            max_y: axis_max(target.y, target.height),
            buttons,
            wheels,
        }
    }

    /// The codes of the buttons.
    pub fn button_codes(&self) -> (out: Vec<u16>)
        ensures
            lists_codes(out@, keys_in(self.buttons)),
    {
        list_keys(&self.buttons)
    }

    /// The codes of the wheels.
    pub fn wheel_codes(&self) -> (out: Vec<u16>)
        ensures
            lists_codes(out@, axes_in(self.wheels)),
    {
        list_axes(&self.wheels)
    }

    /// The events of a pointer that is at (`x`, `y`).
    pub fn pointer_event(
        &self,
        phase: PointerPhase,
        x: i32,
        y: i32,
        button: Option<PointerButton>,
    ) -> (events: Vec<DeviceEvent>)
        ensures
            events@ == pointer_events(phase, x, y, button),
    {
        let codes: EventCodes = evdev_codes();
        let mut events: Vec<DeviceEvent> = Vec::new();
        events.push(DeviceEvent { kind: codes.absolute, code: codes.abs_x, value: x });
        events.push(DeviceEvent { kind: codes.absolute, code: codes.abs_y, value: y });
        assert(events@ =~= moves(x, y));
        if let Some(named) = button {
            let value: Option<i32> = match phase {
                PointerPhase::Down => Some(1),
                PointerPhase::Up => Some(0),
                PointerPhase::Move => None,
            };
            if let Some(value) = value {
                events.push(DeviceEvent { kind: codes.key, code: button_key(named), value });
            }
        }
        events
    }

    /// The events of a wheel that was turned; none where it was not.
    pub fn wheel_event(&self, wheel_x: i32, wheel_y: i32) -> (events: Vec<DeviceEvent>)
        requires
            wheel_y > i32::MIN,
        ensures
            events@ == wheel_events(wheel_x, wheel_y),
    {
        let codes: EventCodes = evdev_codes();
        let mut events: Vec<DeviceEvent> = Vec::new();
        if wheel_y != 0 {
            events.push(
                DeviceEvent { kind: codes.relative, code: codes.rel_wheel, value: -wheel_y },
            );
        }
        if wheel_x != 0 {
            events.push(
                DeviceEvent { kind: codes.relative, code: codes.rel_hwheel, value: wheel_x },
            );
        }
        assert(events@ =~= wheel_events(wheel_x, wheel_y));
        events
    }
}

/// A device emits only events that it was set up for: its buttons and its wheels.
pub proof fn events_are_announced(
    injector: InputInjector,
    phase: PointerPhase,
    x: i32,
    y: i32,
    button: Option<PointerButton>,
    wheel_x: i32,
    wheel_y: i32,
)
    requires
        keys_in(injector.buttons) == set![
            event_codes().btn_left,
            event_codes().btn_middle,
            event_codes().btn_right,
        ],
        axes_in(injector.wheels) == set![event_codes().rel_wheel, event_codes().rel_hwheel],
    ensures
        forall|i: int|
            0 <= i < pointer_events(phase, x, y, button).len() ==> {
                let event = #[trigger] pointer_events(phase, x, y, button)[i];
                event.kind == event_codes().key ==> keys_in(injector.buttons).contains(event.code)
            },
        forall|i: int|
            0 <= i < wheel_events(wheel_x, wheel_y).len() ==> {
                let event = #[trigger] wheel_events(wheel_x, wheel_y)[i];
                event.kind == event_codes().relative && axes_in(injector.wheels).contains(
                    event.code,
                )
            },
{
}

/// A button that goes down and up again leaves the pointer where it was put and the button up: the
/// two lists of events differ in the value of the button alone.
pub proof fn buttons_go_up_again(x: i32, y: i32, button: PointerButton)
    ensures
        pointer_events(PointerPhase::Down, x, y, Some(button)).len() == 3,
        pointer_events(PointerPhase::Up, x, y, Some(button)) == pointer_events(
            PointerPhase::Down,
            x,
            y,
            Some(button),
        ).update(2, DeviceEvent { kind: event_codes().key, code: key_of(button), value: 0 }),
{
}

/// A press names the button that was pressed: the pointer is put where it is, and the third event
/// is of the kind `EV_KEY`, has the kernel's code of that button, and tells that it is down; the
/// release has the same code and tells that it is up.
pub proof fn presses_name_the_button(x: i32, y: i32, button: PointerButton)
    ensures
        ({
            let down = pointer_events(PointerPhase::Down, x, y, Some(button));
            let up = pointer_events(PointerPhase::Up, x, y, Some(button));
            &&& down.len() == 3
            &&& up.len() == 3
            &&& down[2].kind == 1
            &&& up[2].kind == 1
            &&& button == PointerButton::Left ==> down[2].code == 0x110
            &&& button == PointerButton::Right ==> down[2].code == 0x111
            &&& button == PointerButton::Middle ==> down[2].code == 0x112
            &&& up[2].code == down[2].code
            &&& down[2].value == 1
            &&& up[2].value == 0
        }),
{
}

/// Different buttons are told apart by their codes, pressed or released.
pub proof fn buttons_have_codes_of_their_own(
    phase: PointerPhase,
    x: i32,
    y: i32,
    one: PointerButton,
    other: PointerButton,
)
    requires
        one != other,
        phase != PointerPhase::Move,
    ensures
        pointer_events(phase, x, y, Some(one))[2].code != pointer_events(
            phase,
            x,
            y,
            Some(other),
        )[2].code,
        key_of(one) != key_of(other),
{
}

/// Whatever the pointer does, it is put at its place first: `ABS_X` and then `ABS_Y` get the
/// position as it is. A pointer that only moves, and one without a button, tells nothing else.
pub proof fn pointers_are_put_in_place(
    phase: PointerPhase,
    x: i32,
    y: i32,
    button: Option<PointerButton>,
)
    ensures
        ({
            let events = pointer_events(phase, x, y, button);
            &&& events.len() >= 2
            &&& events[0] == (DeviceEvent { kind: 3, code: 0, value: x })
            &&& events[1] == (DeviceEvent { kind: 3, code: 1, value: y })
            &&& events.len() == 2 <==> phase == PointerPhase::Move || button is None
            &&& events.len() <= 3
        }),
{
}

/// A wheel is told as far as it was turned: the vertical one first, with its direction turned
/// round, then the horizontal one as it is, and neither where it was not turned.
pub proof fn wheels_are_told_as_turned(wheel_x: i32, wheel_y: i32)
    requires
        wheel_y > i32::MIN,
    ensures
        ({
            let events = wheel_events(wheel_x, wheel_y);
            &&& events.len() == (if wheel_y != 0 {
                1int
            } else {
                0
            }) + (if wheel_x != 0 {
                1int
            } else {
                0
            })
            &&& wheel_y != 0 ==> events[0].kind == 2 && events[0].code == 8 && events[0].value
                + wheel_y == 0
            &&& wheel_x != 0 ==> events.last() == (DeviceEvent { kind: 2, code: 6, value: wheel_x })
        }),
{
}

/// An axis reaches to the last pixel of the part of the screen that the pointer moves in, wherever
/// 31 bits can count it and there is more than one pixel; else it has two positions.
pub proof fn axes_reach_the_last_pixel(origin: u32, extent: u32)
    ensures
        2 <= origin + extent <= 0x8000_0000 ==> axis_limit(origin, extent) == origin + extent - 1,
        origin + extent < 2 || origin + extent > 0x8000_0000 ==> axis_limit(origin, extent) == 1,
{
}

/// What a pointer emits for a press names the button that was pressed, wherever it moves: the third
/// event is of the kind `EV_KEY`, has the kernel's code of the button and tells that it is down;
/// for the release it is the same but for the value.
pub proof fn emitted_presses_name_the_button(
    injector: InputInjector,
    x: i32,
    y: i32,
    button: PointerButton,
    down: Vec<DeviceEvent>,
    up: Vec<DeviceEvent>,
)
    requires
        call_ensures(
            InputInjector::pointer_event,
            (&injector, PointerPhase::Down, x, y, Some(button)),
            down,
        ),
        call_ensures(
            InputInjector::pointer_event,
            (&injector, PointerPhase::Up, x, y, Some(button)),
            up,
        ),
    ensures
        down@.len() == 3,
        down@[0] == (DeviceEvent { kind: 3, code: 0, value: x }),
        down@[1] == (DeviceEvent { kind: 3, code: 1, value: y }),
        down@[2].kind == 1,
        down@[2].value == 1,
        button == PointerButton::Left ==> down@[2].code == 0x110,
        button == PointerButton::Right ==> down@[2].code == 0x111,
        button == PointerButton::Middle ==> down@[2].code == 0x112,
        up@ == down@.update(2, DeviceEvent { value: 0, ..down@[2] }),
{
    presses_name_the_button(x, y, button);
    pointers_are_put_in_place(PointerPhase::Down, x, y, Some(button));
    assert(up@ =~= down@.update(2, DeviceEvent { value: 0, ..down@[2] }));
}

/// A pointer moves in the part of the screen that a live picture shows, up to its last pixel.
pub proof fn pointers_reach_the_whole_picture(
    display: String,
    x: u32,
    y: u32,
    width: u32,
    height: u32,
    target: Option<InputTarget>,
    injector: InputInjector,
)
    requires
        2 <= x + width <= 0x8000_0000,
        2 <= y + height <= 0x8000_0000,
        call_ensures(
            input_target_from_live_source,
            (&LiveVideoSource::X11Grab { display, x, y, width, height },),
            target,
        ),
        target matches Some(found) && call_ensures(InputInjector::new, (found,), injector),
    ensures
        injector.target == (InputTarget { x, y, width, height }),
        injector.max_x == x + width - 1,
        injector.max_y == y + height - 1,
        keys_in(injector.buttons).contains(0x110),
        keys_in(injector.buttons).contains(0x111),
        keys_in(injector.buttons).contains(0x112),
        axes_in(injector.wheels).contains(8),
        axes_in(injector.wheels).contains(6),
{
}

} // verus!
