use vstd::prelude::*;

use crate::frame_state::FrameState;

verus! {

/// Full deflection of a gamepad axis, in the fixed-point unit used for stick values.
pub const AXIS_FULL_SCALE: i32 = 10000;

/// Stick deflection, in the same unit, below which an axis counts as at rest.
pub const STICK_DEAD_ZONE: i32 = 2000;

/// A modifier whose held state is reported to the GUI as a whole (either side).
#[derive(Clone, Copy, Debug, PartialEq, Eq, Structural)]
pub enum Modifier {
    Ctrl,
    Shift,
    Alt,
    Super,
}

/// The five standard mouse buttons.
#[derive(Clone, Copy, Debug, PartialEq, Eq, Structural)]
pub enum MouseButton {
    Left,
    Right,
    Middle,
    Extra1,
    Extra2,
}

/// Gamepad buttons taking part in GUI navigation, named by their position on the pad.
#[derive(Clone, Copy, Debug, PartialEq, Eq, Structural)]
pub enum GamepadButton {
    LeftFaceUp,
    LeftFaceRight,
    LeftFaceDown,
    LeftFaceLeft,
    RightFaceUp,
    RightFaceRight,
    RightFaceDown,
    RightFaceLeft,
    LeftTrigger1,
    LeftTrigger2,
    RightTrigger1,
    RightTrigger2,
    LeftThumb,
    RightThumb,
    MiddleLeft,
    MiddleRight,
}

/// The four stick axes of a gamepad.
#[derive(Clone, Copy, Debug, PartialEq, Eq, Structural)]
pub enum GamepadAxis {
    LeftX,
    LeftY,
    RightX,
    RightY,
}

/// What the host reports of one key or button during the current frame.
#[derive(Clone, Copy, Debug, PartialEq, Eq, Structural)]
pub struct Transition {
    pub pressed: bool,
    pub released: bool,
}

/// One discrete event handed to the GUI context.
#[derive(Clone, Copy, Debug, PartialEq, Eq, Structural)]
pub enum InputEvent {
    Focus(bool),
    Modifier { modifier: Modifier, down: bool },
    /// A key of the keyboard map, named by its position in the map.
    Key { entry: usize, down: bool },
    /// A typed character, as its Unicode scalar value.
    Character(u32),
    MousePos { x: i32, y: i32 },
    MouseButton { button: MouseButton, down: bool },
    /// The accumulated wheel movement of this frame, whatever its value.
    MouseWheel,
    GamepadButton { pad_button: GamepadButton, down: bool },
    /// One direction of a stick; `magnitude` is in the fixed-point axis unit.
    GamepadAnalog { axis: GamepadAxis, positive: bool, active: bool, magnitude: i32 },
}

/// State of the gamepad in slot 0, when one is present.
pub struct GamepadInput {
    pub buttons: Vec<(GamepadButton, Transition)>,
    /// Axis values in the fixed-point unit, `AXIS_FULL_SCALE` being full deflection.
    pub axes: Vec<(GamepadAxis, i32)>,
}

/// Device state polled from the host at the start of a frame.
pub struct PolledInput {
    pub window_focused: bool,
    pub left_control: bool,
    pub right_control: bool,
    pub left_shift: bool,
    pub right_shift: bool,
    pub left_alt: bool,
    pub right_alt: bool,
    pub left_super: bool,
    pub right_super: bool,
    /// One transition per keyboard-map entry, in map order.
    pub keys: Vec<Transition>,
    pub want_capture_keyboard: bool,
    /// Characters typed this frame, in order, as Unicode scalar values.
    pub characters: Vec<u32>,
    pub want_set_mouse_pos: bool,
    pub mouse_x: i32,
    pub mouse_y: i32,
    pub mouse_buttons: Vec<(MouseButton, Transition)>,
    pub nav_enable_gamepad: bool,
    pub gamepad: Option<GamepadInput>,
}

/// The focus and modifier state that a polled snapshot shows.
pub open spec fn observed_state(input: PolledInput) -> FrameState {
    FrameState {
        is_window_focused: input.window_focused,
        is_control_pressed: input.left_control || input.right_control,
        is_shift_pressed: input.left_shift || input.right_shift,
        is_alt_pressed: input.left_alt || input.right_alt,
        is_super_pressed: input.left_super || input.right_super,
    }
}

#[verifier::opaque]
pub open spec fn change_event(before: bool, now: bool, e: InputEvent) -> Seq<InputEvent> {
    if before != now {
        seq![e]
    } else {
        seq![]
    }
}

/// One event for each focus or modifier flag that differs between two states.
pub open spec fn state_events(prev: FrameState, now: FrameState) -> Seq<InputEvent> {
    change_event(prev.is_window_focused, now.is_window_focused, InputEvent::Focus(now.is_window_focused))
        + change_event(prev.is_control_pressed, now.is_control_pressed,
            InputEvent::Modifier { modifier: Modifier::Ctrl, down: now.is_control_pressed })
        + change_event(prev.is_shift_pressed, now.is_shift_pressed,
            InputEvent::Modifier { modifier: Modifier::Shift, down: now.is_shift_pressed })
        + change_event(prev.is_alt_pressed, now.is_alt_pressed,
            InputEvent::Modifier { modifier: Modifier::Alt, down: now.is_alt_pressed })
        + change_event(prev.is_super_pressed, now.is_super_pressed,
            InputEvent::Modifier { modifier: Modifier::Super, down: now.is_super_pressed })
}

/// A key release wins over a press reported in the same frame.
pub open spec fn key_event(entry: int, t: Transition) -> Seq<InputEvent> {
    if t.released {
        seq![InputEvent::Key { entry: entry as usize, down: false }]
    } else if t.pressed {
        seq![InputEvent::Key { entry: entry as usize, down: true }]
    } else {
        seq![]
    }
}

pub open spec fn key_events(ts: Seq<Transition>, n: nat) -> Seq<InputEvent>
    decreases n,
{
    if n == 0 {
        seq![]
    } else {
        key_events(ts, (n - 1) as nat) + key_event(n - 1, ts[n - 1])
    }
}

pub open spec fn char_events(cs: Seq<u32>) -> Seq<InputEvent> {
    cs.map_values(|c: u32| InputEvent::Character(c))
}

/// For a mouse button a press wins over a release reported in the same frame.
pub open spec fn mouse_button_event(b: MouseButton, t: Transition) -> Seq<InputEvent> {
    if t.pressed {
        seq![InputEvent::MouseButton { button: b, down: true }]
    } else if t.released {
        seq![InputEvent::MouseButton { button: b, down: false }]
    } else {
        seq![]
    }
}

pub open spec fn mouse_button_events(bs: Seq<(MouseButton, Transition)>, n: nat) -> Seq<InputEvent>
    decreases n,
{
    if n == 0 {
        seq![]
    } else {
        mouse_button_events(bs, (n - 1) as nat) + mouse_button_event(bs[n - 1].0, bs[n - 1].1)
    }
}

pub open spec fn gamepad_button_event(b: GamepadButton, t: Transition) -> Seq<InputEvent> {
    if t.pressed {
        seq![InputEvent::GamepadButton { pad_button: b, down: true }]
    } else if t.released {
        seq![InputEvent::GamepadButton { pad_button: b, down: false }]
    } else {
        seq![]
    }
}

pub open spec fn gamepad_button_events(bs: Seq<(GamepadButton, Transition)>, n: nat) -> Seq<
    InputEvent,
>
    decreases n,
{
    if n == 0 {
        seq![]
    } else {
        gamepad_button_events(bs, (n - 1) as nat) + gamepad_button_event(bs[n - 1].0, bs[n - 1].1)
    }
}

/// The negative-direction event of an axis: active beyond the dead zone, with the excess as
/// magnitude.
pub open spec fn stick_negative(axis: GamepadAxis, value: i32) -> InputEvent {
    let active = value < -STICK_DEAD_ZONE;
    InputEvent::GamepadAnalog {
        axis,
        positive: false,
        active,
        magnitude: if active { (-(value + STICK_DEAD_ZONE)) as i32 } else { 0 },
    }
}

pub open spec fn stick_positive(axis: GamepadAxis, value: i32) -> InputEvent {
    let active = value > STICK_DEAD_ZONE;
    InputEvent::GamepadAnalog {
        axis,
        positive: true,
        active,
        magnitude: if active { (value - STICK_DEAD_ZONE) as i32 } else { 0 },
    }
}

pub open spec fn stick_events(axes: Seq<(GamepadAxis, i32)>, n: nat) -> Seq<InputEvent>
    decreases n,
{
    if n == 0 {
        seq![]
    } else {
        stick_events(axes, (n - 1) as nat).push(stick_negative(axes[n - 1].0, axes[n - 1].1)).push(
            stick_positive(axes[n - 1].0, axes[n - 1].1),
        )
    }
}

pub open spec fn gamepad_events(input: PolledInput) -> Seq<InputEvent> {
    match input.gamepad {
        Some(g) => if input.nav_enable_gamepad {
            gamepad_button_events(g.buttons@, g.buttons@.len()) + stick_events(
                g.axes@,
                g.axes@.len(),
            )
        } else {
            seq![]
        },
        None => seq![],
    }
}

pub open spec fn typed_events(input: PolledInput) -> Seq<InputEvent> {
    if input.want_capture_keyboard {
        char_events(input.characters@)
    } else {
        seq![]
    }
}

pub open spec fn position_events(input: PolledInput) -> Seq<InputEvent> {
    if input.want_set_mouse_pos {
        seq![]
    } else {
        seq![InputEvent::MousePos { x: input.mouse_x, y: input.mouse_y }]
    }
}

/// Everything after the focus and modifier events, in the order the GUI receives it.
pub open spec fn device_events(input: PolledInput) -> Seq<InputEvent> {
    key_events(input.keys@, input.keys@.len()) + typed_events(input) + position_events(input)
        + mouse_button_events(input.mouse_buttons@, input.mouse_buttons@.len()) + seq![
        InputEvent::MouseWheel,
    ] + gamepad_events(input)
}

/// The events of one frame, given the state left by the previous one.
pub open spec fn frame_events(prev: FrameState, input: PolledInput) -> Seq<InputEvent> {
    state_events(prev, observed_state(input)) + device_events(input)
}

fn push_change(events: &mut Vec<InputEvent>, before: bool, now: bool, e: InputEvent)
    ensures
        final(events)@ == old(events)@ + change_event(before, now, e),
{
    if before != now {
        events.push(e);
    }
    proof {
        reveal(change_event);
        assert(final(events)@ =~= old(events)@ + change_event(before, now, e));
    }
}

fn push_key_events(events: &mut Vec<InputEvent>, keys: &Vec<Transition>)
    ensures
        final(events)@ == old(events)@ + key_events(keys@, keys@.len()),
{
    let ghost head = events@;
    let mut i: usize = 0;
    while i < keys.len()
        invariant
            i <= keys@.len(),
            events@ == head + key_events(keys@, i as nat),
        decreases keys@.len() - i,
    {
        let t = keys[i];
        if t.released {
            events.push(InputEvent::Key { entry: i, down: false });
        } else if t.pressed {
            events.push(InputEvent::Key { entry: i, down: true });
        }
        assert(events@ =~= head + key_events(keys@, (i + 1) as nat));
        i = i + 1;
    }
}

fn push_char_events(events: &mut Vec<InputEvent>, characters: &Vec<u32>)
    ensures
        final(events)@ == old(events)@ + char_events(characters@),
{
    let ghost head = events@;
    assert(events@ =~= head + char_events(characters@.take(0)));
    let mut c: usize = 0;
    while c < characters.len()
        invariant
            c <= characters@.len(),
            events@ == head + char_events(characters@.take(c as int)),
        decreases characters@.len() - c,
    {
        let ch = characters[c];
        events.push(InputEvent::Character(ch));
        assert(characters@.take(c + 1) =~= characters@.take(c as int).push(ch));
        assert(events@ =~= head + char_events(characters@.take(c + 1)));
        c = c + 1;
    }
    assert(characters@.take(c as int) =~= characters@);
}

fn push_mouse_button_events(events: &mut Vec<InputEvent>, buttons: &Vec<(MouseButton, Transition)>)
    ensures
        final(events)@ == old(events)@ + mouse_button_events(buttons@, buttons@.len()),
{
    let ghost head = events@;
    let mut b: usize = 0;
    while b < buttons.len()
        invariant
            b <= buttons@.len(),
            events@ == head + mouse_button_events(buttons@, b as nat),
        decreases buttons@.len() - b,
    {
        let (button, t) = buttons[b];
        if t.pressed {
            events.push(InputEvent::MouseButton { button, down: true });
        } else if t.released {
            events.push(InputEvent::MouseButton { button, down: false });
        }
        assert(events@ =~= head + mouse_button_events(buttons@, (b + 1) as nat));
        b = b + 1;
    }
}

fn push_gamepad_events(events: &mut Vec<InputEvent>, pad: &GamepadInput)
    ensures
        final(events)@ == old(events)@ + gamepad_button_events(pad.buttons@, pad.buttons@.len())
            + stick_events(pad.axes@, pad.axes@.len()),
{
    let ghost head = events@;
    let mut g: usize = 0;
    while g < pad.buttons.len()
        invariant
            g <= pad.buttons@.len(),
            events@ == head + gamepad_button_events(pad.buttons@, g as nat),
        decreases pad.buttons@.len() - g,
    {
        let (pad_button, t) = pad.buttons[g];
        if t.pressed {
            events.push(InputEvent::GamepadButton { pad_button, down: true });
        } else if t.released {
            events.push(InputEvent::GamepadButton { pad_button, down: false });
        }
        assert(events@ =~= head + gamepad_button_events(pad.buttons@, (g + 1) as nat));
        g = g + 1;
    }
    let ghost pressed = events@;
    let mut a: usize = 0;
    while a < pad.axes.len()
        invariant
            a <= pad.axes@.len(),
            events@ == pressed + stick_events(pad.axes@, a as nat),
        decreases pad.axes@.len() - a,
    {
        let (axis, value) = pad.axes[a];
        let (neg, pos) = stick_pair(axis, value);
        events.push(neg);
        events.push(pos);
        proof {
            let prev = stick_events(pad.axes@, a as nat);
            assert(stick_events(pad.axes@, (a + 1) as nat) == prev.push(neg).push(pos));
            assert(events@ =~= pressed + stick_events(pad.axes@, (a + 1) as nat));
        }
        a = a + 1;
    }
}

fn push_state_events(events: &mut Vec<InputEvent>, prev: &FrameState, now: &FrameState)
    ensures
        final(events)@ == old(events)@ + state_events(*prev, *now),
{
    let ghost head = events@;
    let ghost focus = change_event(prev.is_window_focused, now.is_window_focused, InputEvent::Focus(now.is_window_focused));
    let ghost ctrl = change_event(prev.is_control_pressed, now.is_control_pressed,
        InputEvent::Modifier { modifier: Modifier::Ctrl, down: now.is_control_pressed });
    let ghost shift = change_event(prev.is_shift_pressed, now.is_shift_pressed,
        InputEvent::Modifier { modifier: Modifier::Shift, down: now.is_shift_pressed });
    let ghost alt = change_event(prev.is_alt_pressed, now.is_alt_pressed,
        InputEvent::Modifier { modifier: Modifier::Alt, down: now.is_alt_pressed });
    let ghost sup = change_event(prev.is_super_pressed, now.is_super_pressed,
        InputEvent::Modifier { modifier: Modifier::Super, down: now.is_super_pressed });
    push_change(events, prev.is_window_focused, now.is_window_focused, InputEvent::Focus(now.is_window_focused));
    push_change(
        events,
        prev.is_control_pressed,
        now.is_control_pressed,
        InputEvent::Modifier { modifier: Modifier::Ctrl, down: now.is_control_pressed },
    );
    assert(events@ =~= head + (focus + ctrl));
    push_change(
        events,
        prev.is_shift_pressed,
        now.is_shift_pressed,
        InputEvent::Modifier { modifier: Modifier::Shift, down: now.is_shift_pressed },
    );
    assert(events@ =~= head + (focus + ctrl + shift));
    push_change(
        events,
        prev.is_alt_pressed,
        now.is_alt_pressed,
        InputEvent::Modifier { modifier: Modifier::Alt, down: now.is_alt_pressed },
    );
    assert(events@ =~= head + (focus + ctrl + shift + alt));
    push_change(
        events,
        prev.is_super_pressed,
        now.is_super_pressed,
        InputEvent::Modifier { modifier: Modifier::Super, down: now.is_super_pressed },
    );
    assert(events@ =~= head + (focus + ctrl + shift + alt + sup));
}

fn push_device_events(events: &mut Vec<InputEvent>, input: &PolledInput)
    ensures
        final(events)@ == old(events)@ + device_events(*input),
{
    let ghost head = events@;
    push_key_events(events, &input.keys);
    let ghost keyed = events@;
    if input.want_capture_keyboard {
        push_char_events(events, &input.characters);
    }
    assert(events@ =~= keyed + typed_events(*input));
    let ghost typed = events@;
    if !input.want_set_mouse_pos {
        events.push(InputEvent::MousePos { x: input.mouse_x, y: input.mouse_y });
    }
    assert(events@ =~= typed + position_events(*input));
    let ghost positioned = events@;
    push_mouse_button_events(events, &input.mouse_buttons);
    events.push(InputEvent::MouseWheel);
    let ghost wheeled = events@;
    assert(wheeled =~= positioned + mouse_button_events(input.mouse_buttons@, input.mouse_buttons@.len())
        + seq![InputEvent::MouseWheel]);
    if input.nav_enable_gamepad {
        if let Some(pad) = &input.gamepad {
            push_gamepad_events(events, pad);
        }
    }
    assert(events@ =~= wheeled + gamepad_events(*input));
    assert(events@ =~= head + device_events(*input));
}

/// Diffs the polled snapshot against the previous frame's state and returns the frame's
/// input events in order; the state is left as the snapshot shows it.
pub fn process_events(state: &mut FrameState, input: &PolledInput) -> (events: Vec<InputEvent>)
    ensures
        events@ == frame_events(*old(state), *input),
        *final(state) == observed_state(*input),
{
    let mut events: Vec<InputEvent> = Vec::new();
    let now = FrameState {
        is_window_focused: input.window_focused,
        is_control_pressed: input.left_control || input.right_control,
        is_shift_pressed: input.left_shift || input.right_shift,
        is_alt_pressed: input.left_alt || input.right_alt,
        is_super_pressed: input.left_super || input.right_super,
    };
    push_state_events(&mut events, state, &now);
    *state = now;
    push_device_events(&mut events, input);
    assert(events@ =~= frame_events(*old(state), *input));
    events
}

/// The two analog events of one stick axis, negative direction first.
pub fn stick_pair(axis: GamepadAxis, value: i32) -> (r: (InputEvent, InputEvent))
    ensures
        r.0 == stick_negative(axis, value),
        r.1 == stick_positive(axis, value),
{
    let neg_active = value < -STICK_DEAD_ZONE;
    let pos_active = value > STICK_DEAD_ZONE;
    let neg = InputEvent::GamepadAnalog {
        axis,
        positive: false,
        active: neg_active,
        magnitude: if neg_active { -(value + STICK_DEAD_ZONE) } else { 0 },
    };
    let pos = InputEvent::GamepadAnalog {
        axis,
        positive: true,
        active: pos_active,
        magnitude: if pos_active { value - STICK_DEAD_ZONE } else { 0 },
    };
    (neg, pos)
}

pub open spec fn is_state_event(e: InputEvent) -> bool {
    e is Focus || e is Modifier
}

/// The keyboard-map entry a key event is about; `-1` for any other event.
pub open spec fn key_entry(e: InputEvent) -> int {
    match e {
        InputEvent::Key { entry, .. } => entry as int,
        _ => -1,
    }
}

/// An event that is neither a focus, a modifier nor a key event.
pub open spec fn is_plain_event(e: InputEvent) -> bool {
    !is_state_event(e) && !(e is Key)
}

pub open spec fn all_plain(s: Seq<InputEvent>) -> bool {
    forall|k: int| 0 <= k < s.len() ==> is_plain_event(#[trigger] s[k])
}

/// The events after the key events: typed text, pointer, wheel and gamepad.
pub open spec fn pointer_events(input: PolledInput) -> Seq<InputEvent> {
    typed_events(input) + position_events(input) + mouse_button_events(
        input.mouse_buttons@,
        input.mouse_buttons@.len(),
    ) + seq![InputEvent::MouseWheel] + gamepad_events(input)
}

proof fn lemma_all_plain_add(a: Seq<InputEvent>, b: Seq<InputEvent>)
    requires
        all_plain(a),
        all_plain(b),
    ensures
        all_plain(a + b),
{
    assert forall|k: int| 0 <= k < (a + b).len() implies is_plain_event(#[trigger] (a + b)[k]) by {
        if k < a.len() {
            assert((a + b)[k] == a[k]);
        } else {
            assert((a + b)[k] == b[k - a.len()]);
        }
    }
}

proof fn lemma_mouse_buttons_plain(bs: Seq<(MouseButton, Transition)>, n: nat)
    ensures
        all_plain(mouse_button_events(bs, n)),
    decreases n,
{
    if n > 0 {
        lemma_mouse_buttons_plain(bs, (n - 1) as nat);
        lemma_all_plain_add(
            mouse_button_events(bs, (n - 1) as nat),
            mouse_button_event(bs[n - 1].0, bs[n - 1].1),
        );
    }
}

proof fn lemma_gamepad_buttons_plain(bs: Seq<(GamepadButton, Transition)>, n: nat)
    ensures
        all_plain(gamepad_button_events(bs, n)),
    decreases n,
{
    if n > 0 {
        lemma_gamepad_buttons_plain(bs, (n - 1) as nat);
        lemma_all_plain_add(
            gamepad_button_events(bs, (n - 1) as nat),
            gamepad_button_event(bs[n - 1].0, bs[n - 1].1),
        );
    }
}

proof fn lemma_sticks_plain(axes: Seq<(GamepadAxis, i32)>, n: nat)
    ensures
        all_plain(stick_events(axes, n)),
    decreases n,
{
    if n > 0 {
        lemma_sticks_plain(axes, (n - 1) as nat);
        let prev = stick_events(axes, (n - 1) as nat);
        let pair = seq![stick_negative(axes[n - 1].0, axes[n - 1].1), stick_positive(axes[n - 1].0, axes[n - 1].1)];
        assert(stick_events(axes, n) =~= prev + pair);
        lemma_all_plain_add(prev, pair);
    }
}

proof fn lemma_pointer_events_plain(input: PolledInput)
    ensures
        all_plain(pointer_events(input)),
{
    let typed = typed_events(input);
    assert(all_plain(typed));
    let position = position_events(input);
    let buttons = mouse_button_events(input.mouse_buttons@, input.mouse_buttons@.len());
    lemma_mouse_buttons_plain(input.mouse_buttons@, input.mouse_buttons@.len());
    let wheel = seq![InputEvent::MouseWheel];
    let pad = gamepad_events(input);
    match input.gamepad {
        Some(g) => {
            lemma_gamepad_buttons_plain(g.buttons@, g.buttons@.len());
            lemma_sticks_plain(g.axes@, g.axes@.len());
            lemma_all_plain_add(
                gamepad_button_events(g.buttons@, g.buttons@.len()),
                stick_events(g.axes@, g.axes@.len()),
            );
        },
        None => {},
    }
    assert(all_plain(pad));
    lemma_all_plain_add(typed, position);
    lemma_all_plain_add(typed + position, buttons);
    lemma_all_plain_add(typed + position + buttons, wheel);
    lemma_all_plain_add(typed + position + buttons + wheel, pad);
}

proof fn lemma_key_events_are_keys(ts: Seq<Transition>, n: nat)
    ensures
        forall|k: int| 0 <= k < key_events(ts, n).len() ==> (#[trigger] key_events(ts, n)[k]) is Key,
    decreases n,
{
    if n > 0 {
        lemma_key_events_are_keys(ts, (n - 1) as nat);
        let a = key_events(ts, (n - 1) as nat);
        let b = key_event(n - 1, ts[n - 1]);
        let all = key_events(ts, n);
        assert(all == a + b);
        assert forall|k: int| 0 <= k < all.len() implies (#[trigger] all[k]) is Key by {
            if k < a.len() {
                assert(all[k] == a[k]);
            } else {
                assert(all[k] == b[k - a.len()]);
            }
        }
    }
}

proof fn lemma_key_events_ordered(ts: Seq<Transition>, n: nat)
    requires
        n <= usize::MAX,
    ensures
        forall|k: int|
            0 <= k < key_events(ts, n).len() ==> (#[trigger] key_events(ts, n)[k]) is Key && 0
                <= key_entry(key_events(ts, n)[k]) < n,
        forall|i: int, j: int|
            0 <= i < j < key_events(ts, n).len() ==> key_entry(#[trigger] key_events(ts, n)[i])
                < key_entry(#[trigger] key_events(ts, n)[j]),
    decreases n,
{
    if n > 0 {
        lemma_key_events_ordered(ts, (n - 1) as nat);
        let a = key_events(ts, (n - 1) as nat);
        let b = key_event(n - 1, ts[n - 1]);
        let all = key_events(ts, n);
        assert(all == a + b);
        assert(b.len() <= 1);
        assert forall|k: int| 0 <= k < all.len() implies (#[trigger] all[k]) is Key && 0 <= key_entry(
            all[k],
        ) < n by {
            if k < a.len() {
                assert(all[k] == a[k]);
            } else {
                assert(all[k] == b[k - a.len()]);
            }
        }
        assert forall|i: int, j: int| 0 <= i < j < all.len() implies key_entry(#[trigger] all[i])
            < key_entry(#[trigger] all[j]) by {
            assert(all[i] == a[i]);
            if j < a.len() {
                assert(all[j] == a[j]);
            } else {
                assert(all[j] == b[j - a.len()]);
            }
        }
    }
}

proof fn lemma_state_events_are_state(prev: FrameState, now: FrameState)
    ensures
        forall|k: int|
            0 <= k < state_events(prev, now).len() ==> is_state_event(
                #[trigger] state_events(prev, now)[k],
            ),
{
    reveal(change_event);
}

/// When the focus and modifier keys read the same over two consecutive frames, the second
/// frame, which starts from the state the first one left, reports no focus or modifier event.
pub proof fn lemma_steady_modifiers_emit_no_change(first: PolledInput, second: PolledInput)
    requires
        observed_state(first) == observed_state(second),
    ensures
        forall|k: int|
            0 <= k < frame_events(observed_state(first), second).len() ==> !is_state_event(
                #[trigger] frame_events(observed_state(first), second)[k],
            ),
{
    let s = observed_state(first);
    reveal(change_event);
    assert(state_events(s, s) =~= Seq::<InputEvent>::empty());
    let keys = key_events(second.keys@, second.keys@.len());
    lemma_key_events_are_keys(second.keys@, second.keys@.len());
    lemma_pointer_events_plain(second);
    assert(device_events(second) =~= keys + pointer_events(second));
    let all = frame_events(s, second);
    assert(all =~= keys + pointer_events(second));
    assert forall|k: int| 0 <= k < all.len() implies !is_state_event(#[trigger] all[k]) by {
        if k < keys.len() {
            assert(all[k] == keys[k]);
        } else {
            assert(all[k] == pointer_events(second)[k - keys.len()]);
        }
    }
}

/// Within one frame each key of the keyboard map is reported at most once, so a press and a
/// release of the same key never both reach the GUI.
pub proof fn lemma_key_reported_once(prev: FrameState, input: PolledInput)
    requires
        input.keys@.len() <= usize::MAX,
    ensures
        forall|i: int, j: int|
            0 <= i < j < frame_events(prev, input).len() && (#[trigger] frame_events(
                prev,
                input,
            )[i]) is Key && (#[trigger] frame_events(prev, input)[j]) is Key ==> key_entry(
                frame_events(prev, input)[i],
            ) != key_entry(frame_events(prev, input)[j]),
{
    let head = state_events(prev, observed_state(input));
    lemma_state_events_are_state(prev, observed_state(input));
    let keys = key_events(input.keys@, input.keys@.len());
    lemma_key_events_ordered(input.keys@, input.keys@.len());
    let rest = pointer_events(input);
    lemma_pointer_events_plain(input);
    let all = frame_events(prev, input);
    assert(all =~= head + keys + rest);
    assert forall|i: int, j: int|
        0 <= i < j < all.len() && (#[trigger] all[i]) is Key && (#[trigger] all[j]) is Key implies key_entry(
        all[i],
    ) != key_entry(all[j]) by {
        if i < head.len() {
            assert(all[i] == head[i]);
        } else if i >= head.len() + keys.len() {
            assert(all[i] == rest[i - head.len() - keys.len()]);
        } else if j >= head.len() + keys.len() {
            assert(all[j] == rest[j - head.len() - keys.len()]);
        } else {
            assert(all[i] == keys[i - head.len()]);
            assert(all[j] == keys[j - head.len()]);
        }
    }
}

} // verus!
