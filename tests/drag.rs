use desktop_waifu::{
    Action, Edge, KeyboardMode, LayerDirective, OutboundEvent, PetWindow, Quadrant, Size, WindowPlacement,
};

fn screen() -> Size {
    Size { width: 1920, height: 1080 }
}

fn margins(w: &PetWindow) -> (i32, i32) {
    (w.placement.margin_horizontal, w.placement.margin_vertical)
}

#[test]
fn initial_state_is_bottom_right_collapsed() {
    let w = PetWindow::initial();
    assert_eq!(
        w.placement,
        WindowPlacement { margin_horizontal: 20, margin_vertical: 20, anchored_right: true, anchored_bottom: true }
    );
    assert_eq!(w.window, Size { width: 160, height: 380 });
    assert_eq!(w.quadrant, Quadrant { right_half: true, bottom_half: true });
    assert!(!w.session.active);
}

#[test]
fn drag_back_to_zero_returns_to_origin() {
    let mut w = PetWindow::initial();
    w.start_drag();
    w.drag(-300, 45);
    assert_eq!(margins(&w), (320, 0));
    w.drag(0, 0);
    assert_eq!(margins(&w), (20, 20));
}

#[test]
fn repeated_offset_is_idempotent_and_last_offset_wins() {
    let mut a = PetWindow::initial();
    a.start_drag();
    a.drag(-120, -70);
    let once = a;
    a.drag(-120, -70);
    assert_eq!(a, once);
    a.drag(-5, -6);

    let mut b = PetWindow::initial();
    b.start_drag();
    b.drag(-5, -6);
    assert_eq!(a, b);
    assert_eq!(margins(&b), (25, 26));
}

#[test]
fn drag_moves_window_with_pointer_on_both_anchor_sides() {
    let mut right = PetWindow::initial();
    right.start_drag();
    right.drag(10, 10);
    assert_eq!(margins(&right), (10, 10));

    let left_top = WindowPlacement { margin_horizontal: 100, margin_vertical: 100, anchored_right: false, anchored_bottom: false };
    let mut left = PetWindow::new(left_top, Size { width: 160, height: 380 });
    left.start_drag();
    left.drag(10, 10);
    assert_eq!(margins(&left), (110, 110));
}

#[test]
fn drag_clamps_negative_margins_to_zero() {
    let mut w = PetWindow::initial();
    w.start_drag();
    w.drag(500, 1_000_000);
    assert_eq!(margins(&w), (0, 0));

    let left_top = WindowPlacement { margin_horizontal: 5, margin_vertical: 5, anchored_right: false, anchored_bottom: false };
    let mut l = PetWindow::new(left_top, Size { width: 160, height: 380 });
    l.start_drag();
    l.drag(-6, i32::MIN);
    assert_eq!(margins(&l), (0, 0));
}

#[test]
fn drag_saturates_at_largest_margin() {
    let mut w = PetWindow::initial();
    w.start_drag();
    w.drag(i32::MIN, i32::MIN);
    assert_eq!(margins(&w), (i32::MAX, i32::MAX));
}

#[test]
fn drag_reports_margins_and_move() {
    let mut w = PetWindow::initial();
    w.start_drag();
    let actions = w.drag(-30, -40);
    assert_eq!(
        actions,
        vec![
            Action::Layer(LayerDirective::Margin { edge: Edge::Right, pixels: 50 }),
            Action::Layer(LayerDirective::Margin { edge: Edge::Bottom, pixels: 60 }),
            Action::Emit(OutboundEvent::CharacterMove { margin_horizontal: 50, margin_vertical: 60 }),
        ]
    );
}

#[test]
fn drag_while_idle_is_ignored() {
    let mut w = PetWindow::initial();
    let before = w;
    assert!(w.drag(-500, -500).is_empty());
    assert_eq!(w, before);
}

#[test]
fn start_while_dragging_keeps_first_origin() {
    let mut w = PetWindow::initial();
    w.start_drag();
    w.drag(-100, 0);
    w.start_drag();
    assert_eq!(w.session.origin_margin_horizontal, 20);
    w.drag(0, 0);
    assert_eq!(margins(&w), (20, 20));
}

#[test]
fn end_drag_without_screen_skips_classification() {
    let mut w = PetWindow::initial();
    w.start_drag();
    w.drag(-1500, -900);
    let before = w.placement;
    assert!(w.end_drag(None).is_empty());
    assert!(!w.session.active);
    assert_eq!(w.placement, before);
    assert_eq!(w.quadrant, Quadrant { right_half: true, bottom_half: true });
    assert!(w.end_drag(Some(Size { width: 0, height: 1080 })).is_empty());
}

#[test]
fn scenario_drag_up_left_by_nine_hundred() {
    let mut w = PetWindow::initial();
    assert_eq!(w.quadrant, Quadrant { right_half: true, bottom_half: true });
    w.start_drag();
    w.drag(-900, -900);
    assert_eq!(margins(&w), (920, 920));
    let actions = w.end_drag(Some(screen()));
    // The horizontal center lands at 920, inside the 50 px band around 960,
    // so the right half holds; the vertical center at -30 leaves the bottom.
    assert_eq!(w.quadrant, Quadrant { right_half: true, bottom_half: false });
    assert!(w.placement.anchored_right);
    assert!(!w.placement.anchored_bottom);
    assert_eq!(w.placement.margin_horizontal, 920);
    // The window's top edge lies above the screen (at -220); a margin cannot
    // be negative, so the top margin is 0.
    assert_eq!(w.placement.margin_vertical, 0);
    assert_eq!(
        actions,
        vec![
            Action::Layer(LayerDirective::Anchor { edge: Edge::Top, anchored: true }),
            Action::Layer(LayerDirective::Anchor { edge: Edge::Bottom, anchored: false }),
            Action::Layer(LayerDirective::Margin { edge: Edge::Top, pixels: 0 }),
            Action::Emit(OutboundEvent::QuadrantChange { is_right_half: true, is_bottom_half: false }),
        ]
    );
}

#[test]
fn scenario_drag_to_top_left_rebinds_and_keeps_corner() {
    let mut w = PetWindow::initial();
    w.start_drag();
    w.drag(-1000, -600);
    assert_eq!(margins(&w), (1020, 620));
    let left = w.placement.left(w.window, screen());
    let top = w.placement.top(w.window, screen());
    assert_eq!((left, top), (740, 80));
    let actions = w.end_drag(Some(screen()));
    assert_eq!(w.quadrant, Quadrant { right_half: false, bottom_half: false });
    assert_eq!(
        w.placement,
        WindowPlacement { margin_horizontal: 740, margin_vertical: 80, anchored_right: false, anchored_bottom: false }
    );
    assert_eq!(w.placement.left(w.window, screen()), left);
    assert_eq!(w.placement.top(w.window, screen()), top);
    assert_eq!(actions.len(), 7);
    assert_eq!(
        actions[6],
        Action::Emit(OutboundEvent::QuadrantChange { is_right_half: false, is_bottom_half: false })
    );
}

#[test]
fn end_drag_without_quadrant_change_emits_nothing() {
    let mut w = PetWindow::initial();
    w.start_drag();
    w.drag(-10, -10);
    assert!(w.end_drag(Some(screen())).is_empty());
    assert_eq!(margins(&w), (30, 30));
}

#[test]
fn get_quadrant_reports_position_and_screen() {
    let mut w = PetWindow::initial();
    let actions = w.get_quadrant(Some(screen()));
    assert_eq!(
        actions,
        vec![Action::Emit(OutboundEvent::InitialState {
            x: 1740,
            y: 680,
            is_right_half: true,
            is_bottom_half: true,
            screen_width: 1920,
            screen_height: 1080,
        })]
    );
    assert!(w.get_quadrant(None).is_empty());
}

#[test]
fn resize_switches_keyboard_mode_after_delay() {
    let mut w = PetWindow::initial();
    let grow = w.resize(800, 1000);
    assert_eq!(
        grow,
        vec![
            Action::Resize(Size { width: 800, height: 1000 }),
            Action::KeyboardModeAfter { delay_ms: 50, mode: KeyboardMode::Exclusive },
        ]
    );
    assert_eq!(w.window, Size { width: 800, height: 1000 });
    let shrink = w.resize(160, 380);
    assert_eq!(shrink[1], Action::KeyboardModeAfter { delay_ms: 50, mode: KeyboardMode::OnDemand });
    let before = w;
    assert!(w.resize(0, 380).is_empty());
    assert!(w.resize(160, -1).is_empty());
    assert_eq!(w, before);
}
