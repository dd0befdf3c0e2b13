use vstd::prelude::*;

verus! {

/// Modifier-key and focus state observed at the end of the previous frame.
#[derive(Clone, Copy, Debug, PartialEq, Eq, Structural)]
pub struct FrameState {
    pub is_window_focused: bool,
    pub is_control_pressed: bool,
    pub is_shift_pressed: bool,
    pub is_alt_pressed: bool,
    pub is_super_pressed: bool,
}

impl FrameState {
    /// The state at construction: focus as the window reports it, no modifier held.
    pub fn new(is_window_focused: bool) -> (r: FrameState)
        ensures
            r.is_window_focused == is_window_focused,
            !r.is_control_pressed,
            !r.is_shift_pressed,
            !r.is_alt_pressed,
            !r.is_super_pressed,
    {
        FrameState {
            is_window_focused,
            is_control_pressed: false,
            is_shift_pressed: false,
            is_alt_pressed: false,
            is_super_pressed: false,
        }
    }
}

} // verus!
