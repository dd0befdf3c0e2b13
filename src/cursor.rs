use vstd::prelude::*;

verus! {

/// Cursor shapes that the GUI may request, in the GUI's own order.
#[derive(Clone, Copy, Debug, PartialEq, Eq, Structural)]
pub enum GuiCursor {
    Arrow,
    TextInput,
    ResizeAll,
    ResizeNS,
    ResizeEW,
    ResizeNESW,
    ResizeNWSE,
    Hand,
    NotAllowed,
}

/// Cursor shapes that the host window can show.
#[derive(Clone, Copy, Debug, PartialEq, Eq, Structural)]
pub enum HostCursor {
    Default,
    Arrow,
    IBeam,
    Crosshair,
    PointingHand,
    ResizeEW,
    ResizeNS,
    ResizeNWSE,
    ResizeNESW,
    ResizeAll,
    NotAllowed,
}

pub open spec fn host_cursor_of(c: GuiCursor) -> HostCursor {
    match c {
        GuiCursor::Arrow => HostCursor::Arrow,
        GuiCursor::TextInput => HostCursor::IBeam,
        GuiCursor::ResizeAll => HostCursor::ResizeAll,
        GuiCursor::ResizeNS => HostCursor::ResizeNS,
        GuiCursor::ResizeEW => HostCursor::ResizeEW,
        GuiCursor::ResizeNESW => HostCursor::ResizeNESW,
        GuiCursor::ResizeNWSE => HostCursor::ResizeNWSE,
        GuiCursor::Hand => HostCursor::PointingHand,
        GuiCursor::NotAllowed => HostCursor::NotAllowed,
    }
}

/// The host shape that stands for a GUI cursor shape.
pub fn host_cursor(c: GuiCursor) -> (r: HostCursor)
    ensures
        r == host_cursor_of(c),
{
    match c {
        GuiCursor::Arrow => HostCursor::Arrow,
        GuiCursor::TextInput => HostCursor::IBeam,
        GuiCursor::ResizeAll => HostCursor::ResizeAll,
        GuiCursor::ResizeNS => HostCursor::ResizeNS,
        GuiCursor::ResizeEW => HostCursor::ResizeEW,
        GuiCursor::ResizeNESW => HostCursor::ResizeNESW,
        GuiCursor::ResizeNWSE => HostCursor::ResizeNWSE,
        GuiCursor::Hand => HostCursor::PointingHand,
        GuiCursor::NotAllowed => HostCursor::NotAllowed,
    }
}

/// What the GUI context reports about the cursor at the start of a frame.
#[derive(Clone, Copy, Debug, PartialEq, Eq, Structural)]
pub struct CursorInput {
    /// The backend advertises cursor-shape support.
    pub has_mouse_cursors: bool,
    /// Configuration forbids changing the cursor shape.
    pub no_mouse_cursor_change: bool,
    /// The shape the GUI asks for, if any.
    pub requested: Option<GuiCursor>,
    /// The GUI draws a software cursor itself.
    pub draw_cursor: bool,
}

/// The OS cursor mutation to perform this frame.
#[derive(Clone, Copy, Debug, PartialEq, Eq, Structural)]
pub enum CursorAction {
    Unchanged,
    Hide,
    /// Show the OS cursor, and set its shape when one is given.
    Show { shape: Option<HostCursor> },
}

/// The cursor remembered after this frame and the mutation to perform.
pub open spec fn reconcile(current: Option<GuiCursor>, input: CursorInput) -> (
    Option<GuiCursor>,
    CursorAction,
) {
    if !input.has_mouse_cursors || (current == input.requested && !input.draw_cursor) {
        (current, CursorAction::Unchanged)
    } else if input.draw_cursor || input.requested is None {
        (input.requested, CursorAction::Hide)
    } else if input.no_mouse_cursor_change {
        (input.requested, CursorAction::Show { shape: None })
    } else {
        (
            input.requested,
            CursorAction::Show {
                shape: Some(
                    match input.requested {
                        Some(c) => host_cursor_of(c),
                        None => HostCursor::Default,
                    },
                ),
            },
        )
    }
}

fn same_cursor(a: Option<GuiCursor>, b: Option<GuiCursor>) -> (r: bool)
    ensures
        r == (a == b),
{
    match (a, b) {
        (None, None) => true,
        (Some(x), Some(y)) => x == y,
        _ => false,
    }
}

/// Decides the OS cursor mutation for this frame and remembers the requested shape.
pub fn reconcile_cursor(current: &mut Option<GuiCursor>, input: &CursorInput) -> (r: CursorAction)
    ensures
        (*final(current), r) == reconcile(*old(current), *input),
{
    if !input.has_mouse_cursors || (same_cursor(*current, input.requested) && !input.draw_cursor) {
        return CursorAction::Unchanged;
    }
    *current = input.requested;
    if input.draw_cursor || input.requested.is_none() {
        CursorAction::Hide
    } else if input.no_mouse_cursor_change {
        CursorAction::Show { shape: None }
    } else {
        let shape = match input.requested {
            Some(c) => host_cursor(c),
            None => HostCursor::Default,
        };
        CursorAction::Show { shape: Some(shape) }
    }
}

/// Reconciling twice with nothing changed in between mutates the OS cursor at most once,
/// unless the GUI draws its own cursor, which hides the OS cursor on every frame.
pub proof fn lemma_reconcile_idempotent(current: Option<GuiCursor>, input: CursorInput)
    requires
        !input.draw_cursor,
    ensures
        reconcile(reconcile(current, input).0, input).1 == CursorAction::Unchanged,
{
}

} // verus!
