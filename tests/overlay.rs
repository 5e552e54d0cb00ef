use desktop_waifu::{
    input_region_request, select_backend, Backend, ClickThrough, InputRegionRequest, InputState, Overlay, OverlayLevel, PlatformStep,
    Rect,
};

fn accepts_everywhere(s: &InputState) -> bool {
    !s.click_through && s.region.is_none()
}

#[test]
fn capability_matrix() {
    let w = Backend::WaylandLayerShell.capabilities();
    assert!(w.partial_input_region);
    assert_eq!(w.click_through, ClickThrough::PerPixel);
    assert_eq!(w.overlay_level, OverlayLevel::CompositorLayer);
    let x = Backend::X11.capabilities();
    assert!(!x.partial_input_region);
    assert_eq!(x.click_through, ClickThrough::WholeWindow);
    assert_eq!(x.overlay_level, OverlayLevel::AlwaysOnTopHint);
    let win = Backend::Windows.capabilities();
    assert!(win.partial_input_region);
    assert_eq!(win.click_through, ClickThrough::WholeWindow);
    assert_eq!(win.overlay_level, OverlayLevel::Topmost);
    let mac = Backend::MacOs.capabilities();
    assert!(!mac.partial_input_region);
    assert_eq!(mac.click_through, ClickThrough::WholeWindow);
    assert_eq!(mac.overlay_level, OverlayLevel::AllSpaces);
}

#[test]
fn region_on_macos_is_recorded_noop() {
    let mut o = Overlay::new(Backend::MacOs);
    let steps = o.set_input_region(10, 20, 160, 380).unwrap();
    assert!(steps.is_empty());
    assert!(accepts_everywhere(&o.state));
    assert_eq!(o.state.unsupported_region_requests, 1);
    assert!(o.set_input_region(-5, -5, -1, -1).is_ok());
    assert_eq!(o.state.unsupported_region_requests, 2);
}

#[test]
fn region_on_x11_keeps_whole_window_taking_input() {
    let mut o = Overlay::new(Backend::X11);
    o.set_click_through(true).unwrap();
    let steps = o.set_input_region(10, 20, 160, 380).unwrap();
    assert_eq!(steps, vec![PlatformStep::IgnorePointerInput(false)]);
    assert!(accepts_everywhere(&o.state));
    assert_eq!(o.state.region, None);
    assert_eq!(o.state.unsupported_region_requests, 1);
}

#[test]
fn region_on_macos_never_turns_on_click_through() {
    let mut o = Overlay::new(Backend::MacOs);
    o.set_input_region(0, 0, 1, 1).unwrap();
    assert!(!o.state.click_through);
    o.set_click_through(true).unwrap();
    o.set_input_region(0, 0, 1, 1).unwrap();
    assert!(o.state.click_through);
    assert_eq!(o.state.region, None);
}

#[test]
fn region_on_wayland_uses_native_region() {
    let mut o = Overlay::new(Backend::WaylandLayerShell);
    let r = Rect { x: 10, y: 20, width: 160, height: 380 };
    assert_eq!(o.set_input_region(10, 20, 160, 380).unwrap(), vec![PlatformStep::SetInputRegion(r)]);
    assert_eq!(o.state.region, Some(r));
    assert_eq!(o.state.unsupported_region_requests, 0);
}

#[test]
fn region_on_windows_clears_transparency_then_clips() {
    let mut o = Overlay::new(Backend::Windows);
    let r = Rect { x: 1, y: 2, width: 3, height: 4 };
    assert_eq!(
        o.set_input_region(1, 2, 3, 4).unwrap(),
        vec![PlatformStep::IgnorePointerInput(false), PlatformStep::SetInputRegion(r)]
    );
    assert_eq!(o.state.region, Some(r));
}

#[test]
fn invalid_region_is_refused_where_regions_exist() {
    for b in [Backend::WaylandLayerShell, Backend::Windows] {
        let mut o = Overlay::new(b);
        let before = o;
        assert!(o.set_input_region(0, 0, -1, 10).is_err());
        assert!(o.set_input_region(i32::MAX, 0, 1, 10).is_err());
        assert!(o.set_input_region(0, i32::MAX - 5, 10, 6).is_err());
        assert_eq!(o, before);
        assert!(o.set_input_region(0, i32::MAX - 6, 10, 6).is_ok());
    }
}

#[test]
fn click_through_steps_per_backend() {
    let mut w = Overlay::new(Backend::WaylandLayerShell);
    assert_eq!(
        w.set_click_through(true).unwrap(),
        vec![PlatformStep::SetInputRegion(Rect { x: 0, y: 0, width: 0, height: 0 })]
    );
    assert!(w.state.click_through);
    assert_eq!(w.set_click_through(false).unwrap(), vec![PlatformStep::ClearInputRegion]);
    assert!(accepts_everywhere(&w.state));
    for b in [Backend::X11, Backend::Windows, Backend::MacOs] {
        let mut o = Overlay::new(b);
        assert_eq!(o.set_click_through(true).unwrap(), vec![PlatformStep::IgnorePointerInput(true)]);
        assert!(o.state.click_through);
    }
}

#[test]
fn clear_region_restores_whole_window() {
    let mut o = Overlay::new(Backend::Windows);
    o.set_input_region(1, 2, 3, 4).unwrap();
    assert_eq!(
        o.clear_input_region().unwrap(),
        vec![PlatformStep::IgnorePointerInput(false), PlatformStep::ClearInputRegion]
    );
    assert!(accepts_everywhere(&o.state));
    let mut m = Overlay::new(Backend::MacOs);
    m.set_click_through(true).unwrap();
    assert_eq!(m.clear_input_region().unwrap(), vec![PlatformStep::IgnorePointerInput(false)]);
    assert!(accepts_everywhere(&m.state));
}

#[test]
fn overlay_mode_toggles() {
    let mut o = Overlay::new(Backend::Windows);
    o.set_click_through(true).unwrap();
    assert_eq!(o.set_overlay_mode(true).unwrap(), vec![PlatformStep::SetOverlay(true)]);
    assert!(o.state.overlay);
    assert!(!o.state.click_through);
    let mut x = Overlay::new(Backend::X11);
    x.set_click_through(true).unwrap();
    assert_eq!(x.set_overlay_mode(false).unwrap(), vec![PlatformStep::SetOverlay(false)]);
    assert!(!x.state.overlay);
    assert!(x.state.click_through);
}

#[test]
fn region_messages_decode_with_defaults() {
    assert_eq!(
        input_region_request(Some("character"), Some(5), None, None, Some(100)),
        InputRegionRequest::Character(Rect { x: 5, y: 0, width: 160, height: 100 })
    );
    assert_eq!(input_region_request(Some("full"), Some(5), Some(5), Some(5), Some(5)), InputRegionRequest::Full);
    assert_eq!(input_region_request(None, None, None, None, None), InputRegionRequest::Full);
    assert_eq!(input_region_request(Some("Character"), None, None, None, None), InputRegionRequest::Full);
}

#[test]
fn region_request_drives_backend() {
    let mut o = Overlay::new(Backend::WaylandLayerShell);
    let req = input_region_request(Some("character"), None, None, None, None);
    assert_eq!(
        o.apply_region_request(req).unwrap(),
        vec![PlatformStep::SetInputRegion(Rect { x: 0, y: 0, width: 160, height: 380 })]
    );
    assert_eq!(o.apply_region_request(InputRegionRequest::Full).unwrap(), vec![PlatformStep::ClearInputRegion]);
    assert_eq!(o.state.region, None);
}

#[test]
fn backend_selection_by_platform_and_session() {
    assert_eq!(select_backend("macos", true), Backend::MacOs);
    assert_eq!(select_backend("windows", false), Backend::Windows);
    assert_eq!(select_backend("linux", true), Backend::WaylandLayerShell);
    assert_eq!(select_backend("linux", false), Backend::X11);
    assert_eq!(select_backend("freebsd", false), Backend::X11);
}
