use vstd::prelude::*;

use crate::cursor::{reconcile, reconcile_cursor, CursorAction, CursorInput, GuiCursor};
use crate::frame_state::FrameState;
use crate::image::Texture;
use crate::input::{frame_events, observed_state, process_events, InputEvent, PolledInput};
use crate::render::{
    draw_data_valid, render_plan, render_skipped, render_steps, steps_of, DrawList, RenderError,
    RenderOp,
};

verus! {

/// Bytes per pixel of the RGBA8 font atlas.
pub const ATLAS_BYTES_PER_PIXEL: usize = 4;

/// What one frame's update asks of the host: a cursor mutation and the GUI's input events.
pub struct FrameUpdate {
    pub cursor: CursorAction,
    pub events: Vec<InputEvent>,
}

/// The bridge between one GUI context and one host window.
pub struct Renderer {
    /// The cursor shape last acted upon.
    pub current_cursor: Option<GuiCursor>,
    /// Focus and modifiers as reported to the GUI so far.
    pub last_frame_state: FrameState,
    /// The texture holding the GUI's font atlas.
    pub font_texture: Texture,
}

impl Renderer {
    /// A renderer for a window whose focus is as given, drawing fonts from the given atlas
    /// texture; the cursor starts as the arrow.
    pub fn create(is_window_focused: bool, font_texture: Texture) -> (r: Renderer)
        ensures
            r.current_cursor == Some(GuiCursor::Arrow),
            r.last_frame_state == (FrameState {
                is_window_focused,
                is_control_pressed: false,
                is_shift_pressed: false,
                is_alt_pressed: false,
                is_super_pressed: false,
            }),
            r.font_texture == font_texture,
    {
        Renderer {
            current_cursor: Some(GuiCursor::Arrow),
            last_frame_state: FrameState::new(is_window_focused),
            font_texture,
        }
    }

    /// The input phase of a frame: reconcile the cursor, then diff the polled devices
    /// against the previous frame.
    pub fn update(&mut self, cursor: &CursorInput, input: &PolledInput) -> (r: FrameUpdate)
        ensures
            (final(self).current_cursor, r.cursor) == reconcile(old(self).current_cursor, *cursor),
            r.events@ == frame_events(old(self).last_frame_state, *input),
            final(self).last_frame_state == observed_state(*input),
            final(self).font_texture == old(self).font_texture,
    {
        let action = self.update_mouse(cursor);
        let events = self.process_events(input);
        FrameUpdate { cursor: action, events }
    }

    fn update_mouse(&mut self, cursor: &CursorInput) -> (r: CursorAction)
        ensures
            (final(self).current_cursor, r) == reconcile(old(self).current_cursor, *cursor),
            final(self).last_frame_state == old(self).last_frame_state,
            final(self).font_texture == old(self).font_texture,
    {
        reconcile_cursor(&mut self.current_cursor, cursor)
    }

    fn process_events(&mut self, input: &PolledInput) -> (r: Vec<InputEvent>)
        ensures
            r@ == frame_events(old(self).last_frame_state, *input),
            final(self).last_frame_state == observed_state(*input),
            final(self).current_cursor == old(self).current_cursor,
            final(self).font_texture == old(self).font_texture,
    {
        process_events(&mut self.last_frame_state, input)
    }

    /// The output phase of a frame: the host calls that replay the draw data.
    pub fn render(&self, fb_width: i32, fb_height: i32, lists: &Vec<DrawList>) -> (r: Result<
        Vec<RenderOp>,
        RenderError,
    >)
        ensures
            r is Ok <==> (render_skipped(fb_width, fb_height, lists@) || draw_data_valid(lists@)),
            r matches Ok(ops) ==> steps_of(ops@) == render_steps(fb_width, fb_height, lists@),
    {
        render_plan(fb_width, fb_height, lists)
    }

    /// Takes a newly uploaded font atlas texture in place of the old one.
    pub fn reload_fonts(&mut self, font_texture: Texture)
        ensures
            final(self).font_texture == font_texture,
            final(self).current_cursor == old(self).current_cursor,
            final(self).last_frame_state == old(self).last_frame_state,
    {
        self.font_texture = font_texture;
    }
}

/// The size in bytes of an RGBA8 font atlas of the given dimensions, or `None` when it does
/// not fit in memory.
pub fn atlas_byte_len(width: u32, height: u32) -> (r: Option<usize>)
    ensures
        r is Some <==> width * height * ATLAS_BYTES_PER_PIXEL <= usize::MAX,
        r matches Some(n) ==> n == width * height * ATLAS_BYTES_PER_PIXEL,
{
    let w = width as usize;
    let h = height as usize;
    match w.checked_mul(h) {
        Some(pixels) => pixels.checked_mul(ATLAS_BYTES_PER_PIXEL),
        None => {
            proof {
                assert(width * height * ATLAS_BYTES_PER_PIXEL >= width * height) by (nonlinear_arith);
            }
            None
        },
    }
}

} // verus!
