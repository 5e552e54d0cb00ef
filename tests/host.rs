use desktop_waifu::host::{dist_dir_candidates, first_usable, overlay_binary_candidates, startup};
use desktop_waifu::{attachment, is_overlay_available, is_wayland, mime_type_for, Startup};

#[test]
fn wayland_detection() {
    assert!(is_wayland(Some("wayland"), false));
    assert!(is_wayland(None, true));
    assert!(is_wayland(Some("x11"), true));
    assert!(!is_wayland(Some("x11"), false));
    assert!(!is_wayland(Some("Wayland"), false));
    assert!(!is_wayland(None, false));
}

#[test]
fn overlay_binary_search_order() {
    let with_exe = overlay_binary_candidates(Some("/opt/dw".to_string()));
    assert_eq!(
        with_exe,
        vec![
            "../desktop-waifu-overlay/target/release/desktop-waifu-overlay",
            "../desktop-waifu-overlay/target/debug/desktop-waifu-overlay",
            "desktop-waifu-overlay/target/release/desktop-waifu-overlay",
            "desktop-waifu-overlay/target/debug/desktop-waifu-overlay",
            "/opt/dw/desktop-waifu-overlay",
            "/usr/bin/desktop-waifu-overlay",
            "/usr/local/bin/desktop-waifu-overlay",
        ]
    );
    assert_eq!(overlay_binary_candidates(None).len(), 6);
}

#[test]
fn dist_dir_search_order() {
    assert_eq!(
        dist_dir_candidates(Some("/opt/dw".to_string())),
        vec!["../dist", "dist", "/opt/dw/dist", "/usr/share/desktop-waifu/dist", "/usr/local/share/desktop-waifu/dist"]
    );
    assert_eq!(dist_dir_candidates(None)[2], "/usr/share/desktop-waifu/dist");
}

#[test]
fn first_usable_candidate_wins() {
    assert_eq!(first_usable(&vec![false, true, true]), Some(1));
    assert_eq!(first_usable(&vec![false, false]), None);
    assert_eq!(first_usable(&vec![]), None);
    assert!(is_overlay_available(&vec![false, false, true]));
    assert!(!is_overlay_available(&vec![false; 7]));
}

#[test]
fn startup_decision() {
    assert_eq!(startup(true, true), Startup::LaunchOverlay);
    assert_eq!(startup(true, false), Startup::OverlayMissing);
    assert_eq!(startup(false, true), Startup::NotWayland);
}

#[test]
fn attachment_encodes_contents() {
    let a = attachment(&b"hello".to_vec(), Some("JPG"), Some("cat.JPG")).unwrap();
    assert_eq!(a.data, "aGVsbG8=");
    assert_eq!(a.mime_type, "image/jpeg");
    assert_eq!(a.filename, "cat.JPG");
    let empty = attachment(&Vec::new(), None, None).unwrap();
    assert_eq!(empty.data, "");
    assert_eq!(empty.mime_type, "image/png");
    assert_eq!(empty.filename, "image");
}

#[test]
fn mime_types_by_extension() {
    assert_eq!(mime_type_for(Some("png")), "image/png");
    assert_eq!(mime_type_for(Some("jpg")), "image/jpeg");
    assert_eq!(mime_type_for(Some("jpeg")), "image/jpeg");
    assert_eq!(mime_type_for(Some("gif")), "image/gif");
    assert_eq!(mime_type_for(Some("webp")), "image/webp");
    assert_eq!(mime_type_for(Some("bmp")), "image/png");
    assert_eq!(mime_type_for(None), "image/png");
    let w = attachment(&vec![0xff, 0x00], Some("WebP"), None).unwrap();
    assert_eq!(w.mime_type, "image/webp");
    assert_eq!(w.data, "/wA=");
}
