use imgui_raylib::frame_state::FrameState;
use imgui_raylib::input::{
    process_events, stick_pair, GamepadAxis, GamepadButton, GamepadInput, InputEvent, Modifier,
    MouseButton, PolledInput, Transition, STICK_DEAD_ZONE,
};

const IDLE: Transition = Transition { pressed: false, released: false };
const PRESS: Transition = Transition { pressed: true, released: false };
const RELEASE: Transition = Transition { pressed: false, released: true };

fn quiet_input() -> PolledInput {
    PolledInput {
        window_focused: true,
        left_control: false,
        right_control: false,
        left_shift: false,
        right_shift: false,
        left_alt: false,
        right_alt: false,
        left_super: false,
        right_super: false,
        keys: vec![IDLE, IDLE, IDLE],
        want_capture_keyboard: false,
        characters: Vec::new(),
        want_set_mouse_pos: true,
        mouse_x: 0,
        mouse_y: 0,
        mouse_buttons: Vec::new(),
        nav_enable_gamepad: false,
        gamepad: None,
    }
}

#[test]
fn quiet_frame_reports_only_the_wheel() {
    let mut state = FrameState::new(true);
    let events = process_events(&mut state, &quiet_input());
    assert_eq!(events, vec![InputEvent::MouseWheel]);
}

#[test]
fn modifier_change_is_reported_once() {
    let mut state = FrameState::new(true);
    let mut input = quiet_input();
    input.right_control = true;
    input.left_shift = true;
    let events = process_events(&mut state, &input);
    assert_eq!(
        events,
        vec![
            InputEvent::Modifier { modifier: Modifier::Ctrl, down: true },
            InputEvent::Modifier { modifier: Modifier::Shift, down: true },
            InputEvent::MouseWheel,
        ]
    );
    assert!(state.is_control_pressed);
    assert!(state.is_shift_pressed);
    assert!(!state.is_alt_pressed);
}

#[test]
fn steady_modifiers_emit_nothing_on_the_next_frame() {
    let mut state = FrameState::new(false);
    let mut input = quiet_input();
    input.left_alt = true;
    input.right_super = true;
    let first = process_events(&mut state, &input);
    assert_eq!(first.len(), 4);
    let second = process_events(&mut state, &input);
    assert!(second
        .iter()
        .all(|e| !matches!(e, InputEvent::Focus(_) | InputEvent::Modifier { .. })));
    assert_eq!(second, vec![InputEvent::MouseWheel]);
}

#[test]
fn focus_change_is_reported() {
    let mut state = FrameState::new(true);
    let mut input = quiet_input();
    input.window_focused = false;
    let events = process_events(&mut state, &input);
    assert_eq!(events[0], InputEvent::Focus(false));
    assert!(!state.is_window_focused);
}

#[test]
fn key_release_wins_over_press_in_one_frame() {
    let mut state = FrameState::new(true);
    let mut input = quiet_input();
    input.keys = vec![Transition { pressed: true, released: true }, PRESS, RELEASE, IDLE];
    let events = process_events(&mut state, &input);
    assert_eq!(
        events,
        vec![
            InputEvent::Key { entry: 0, down: false },
            InputEvent::Key { entry: 1, down: true },
            InputEvent::Key { entry: 2, down: false },
            InputEvent::MouseWheel,
        ]
    );
}

#[test]
fn characters_are_forwarded_in_order_only_when_wanted() {
    let mut state = FrameState::new(true);
    let mut input = quiet_input();
    input.characters = vec!['h' as u32, 'i' as u32];
    let ignored = process_events(&mut state, &input);
    assert_eq!(ignored, vec![InputEvent::MouseWheel]);
    input.want_capture_keyboard = true;
    let typed = process_events(&mut state, &input);
    assert_eq!(
        typed,
        vec![
            InputEvent::Character('h' as u32),
            InputEvent::Character('i' as u32),
            InputEvent::MouseWheel,
        ]
    );
}

#[test]
fn mouse_position_and_buttons() {
    let mut state = FrameState::new(true);
    let mut input = quiet_input();
    input.want_set_mouse_pos = false;
    input.mouse_x = 12;
    input.mouse_y = -3;
    input.mouse_buttons = vec![
        (MouseButton::Left, Transition { pressed: true, released: true }),
        (MouseButton::Right, RELEASE),
        (MouseButton::Middle, IDLE),
    ];
    let events = process_events(&mut state, &input);
    assert_eq!(
        events,
        vec![
            InputEvent::MousePos { x: 12, y: -3 },
            InputEvent::MouseButton { button: MouseButton::Left, down: true },
            InputEvent::MouseButton { button: MouseButton::Right, down: false },
            InputEvent::MouseWheel,
        ]
    );
}

#[test]
fn stick_beyond_dead_zone_reports_the_excess() {
    assert_eq!(STICK_DEAD_ZONE, 2000);
    let (neg, pos) = stick_pair(GamepadAxis::LeftX, 2500);
    assert_eq!(
        neg,
        InputEvent::GamepadAnalog { axis: GamepadAxis::LeftX, positive: false, active: false, magnitude: 0 }
    );
    assert_eq!(
        pos,
        InputEvent::GamepadAnalog { axis: GamepadAxis::LeftX, positive: true, active: true, magnitude: 500 }
    );
}

#[test]
fn stick_inside_dead_zone_is_inactive() {
    let (neg, pos) = stick_pair(GamepadAxis::RightY, 1000);
    assert_eq!(
        neg,
        InputEvent::GamepadAnalog { axis: GamepadAxis::RightY, positive: false, active: false, magnitude: 0 }
    );
    assert_eq!(
        pos,
        InputEvent::GamepadAnalog { axis: GamepadAxis::RightY, positive: true, active: false, magnitude: 0 }
    );
}

#[test]
fn stick_negative_direction() {
    let (neg, pos) = stick_pair(GamepadAxis::LeftY, -10000);
    assert_eq!(
        neg,
        InputEvent::GamepadAnalog { axis: GamepadAxis::LeftY, positive: false, active: true, magnitude: 8000 }
    );
    assert_eq!(
        pos,
        InputEvent::GamepadAnalog { axis: GamepadAxis::LeftY, positive: true, active: false, magnitude: 0 }
    );
    let (edge, _) = stick_pair(GamepadAxis::LeftY, -2000);
    assert_eq!(
        edge,
        InputEvent::GamepadAnalog { axis: GamepadAxis::LeftY, positive: false, active: false, magnitude: 0 }
    );
}

#[test]
fn stick_extreme_values_do_not_overflow() {
    let (neg, _) = stick_pair(GamepadAxis::RightX, i32::MIN);
    assert_eq!(
        neg,
        InputEvent::GamepadAnalog {
            axis: GamepadAxis::RightX,
            positive: false,
            active: true,
            magnitude: i32::MAX - 1999,
        }
    );
    let (_, pos) = stick_pair(GamepadAxis::RightX, i32::MAX);
    assert_eq!(
        pos,
        InputEvent::GamepadAnalog {
            axis: GamepadAxis::RightX,
            positive: true,
            active: true,
            magnitude: i32::MAX - 2000,
        }
    );
}

fn pad() -> GamepadInput {
    GamepadInput {
        buttons: vec![(GamepadButton::LeftFaceUp, PRESS), (GamepadButton::MiddleLeft, RELEASE)],
        axes: vec![(GamepadAxis::LeftX, 2500)],
    }
}

#[test]
fn gamepad_events_follow_the_wheel_when_navigation_is_on() {
    let mut state = FrameState::new(true);
    let mut input = quiet_input();
    input.nav_enable_gamepad = true;
    input.gamepad = Some(pad());
    let events = process_events(&mut state, &input);
    assert_eq!(
        events,
        vec![
            InputEvent::MouseWheel,
            InputEvent::GamepadButton { pad_button: GamepadButton::LeftFaceUp, down: true },
            InputEvent::GamepadButton { pad_button: GamepadButton::MiddleLeft, down: false },
            InputEvent::GamepadAnalog { axis: GamepadAxis::LeftX, positive: false, active: false, magnitude: 0 },
            InputEvent::GamepadAnalog { axis: GamepadAxis::LeftX, positive: true, active: true, magnitude: 500 },
        ]
    );
}

#[test]
fn gamepad_is_ignored_without_navigation_or_pad() {
    let mut state = FrameState::new(true);
    let mut input = quiet_input();
    input.gamepad = Some(pad());
    assert_eq!(process_events(&mut state, &input), vec![InputEvent::MouseWheel]);
    input.nav_enable_gamepad = true;
    input.gamepad = None;
    assert_eq!(process_events(&mut state, &input), vec![InputEvent::MouseWheel]);
}
