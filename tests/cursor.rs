use imgui_raylib::cursor::{host_cursor, reconcile_cursor, CursorAction, CursorInput, GuiCursor, HostCursor};

fn request(requested: Option<GuiCursor>) -> CursorInput {
    CursorInput { has_mouse_cursors: true, no_mouse_cursor_change: false, requested, draw_cursor: false }
}

#[test]
fn cursor_map_covers_every_shape() {
    assert_eq!(host_cursor(GuiCursor::Arrow), HostCursor::Arrow);
    assert_eq!(host_cursor(GuiCursor::TextInput), HostCursor::IBeam);
    assert_eq!(host_cursor(GuiCursor::ResizeAll), HostCursor::ResizeAll);
    assert_eq!(host_cursor(GuiCursor::ResizeNS), HostCursor::ResizeNS);
    assert_eq!(host_cursor(GuiCursor::ResizeEW), HostCursor::ResizeEW);
    assert_eq!(host_cursor(GuiCursor::ResizeNESW), HostCursor::ResizeNESW);
    assert_eq!(host_cursor(GuiCursor::ResizeNWSE), HostCursor::ResizeNWSE);
    assert_eq!(host_cursor(GuiCursor::Hand), HostCursor::PointingHand);
    assert_eq!(host_cursor(GuiCursor::NotAllowed), HostCursor::NotAllowed);
}

#[test]
fn changed_shape_shows_and_sets_the_cursor() {
    let mut current = Some(GuiCursor::Arrow);
    let action = reconcile_cursor(&mut current, &request(Some(GuiCursor::Hand)));
    assert_eq!(action, CursorAction::Show { shape: Some(HostCursor::PointingHand) });
    assert_eq!(current, Some(GuiCursor::Hand));
}

#[test]
fn reconciling_twice_mutates_once() {
    let mut current = Some(GuiCursor::Arrow);
    let input = request(Some(GuiCursor::TextInput));
    let first = reconcile_cursor(&mut current, &input);
    assert_eq!(first, CursorAction::Show { shape: Some(HostCursor::IBeam) });
    let second = reconcile_cursor(&mut current, &input);
    assert_eq!(second, CursorAction::Unchanged);
}

#[test]
fn no_requested_shape_hides_the_cursor() {
    let mut current = Some(GuiCursor::Arrow);
    assert_eq!(reconcile_cursor(&mut current, &request(None)), CursorAction::Hide);
    assert_eq!(current, None);
}

#[test]
fn software_cursor_hides_every_frame() {
    let mut current = Some(GuiCursor::Arrow);
    let mut input = request(Some(GuiCursor::Arrow));
    input.draw_cursor = true;
    assert_eq!(reconcile_cursor(&mut current, &input), CursorAction::Hide);
    assert_eq!(reconcile_cursor(&mut current, &input), CursorAction::Hide);
}

#[test]
fn shape_change_disabled_only_shows() {
    let mut current = None;
    let mut input = request(Some(GuiCursor::ResizeEW));
    input.no_mouse_cursor_change = true;
    assert_eq!(reconcile_cursor(&mut current, &input), CursorAction::Show { shape: None });
}

#[test]
fn without_cursor_support_nothing_happens() {
    let mut current = Some(GuiCursor::Arrow);
    let mut input = request(None);
    input.has_mouse_cursors = false;
    assert_eq!(reconcile_cursor(&mut current, &input), CursorAction::Unchanged);
    assert_eq!(current, Some(GuiCursor::Arrow));
}
