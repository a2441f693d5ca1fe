use scoreboard_sampler::capture::{CaptureRegion, Rect, Screenshoter, POPUP_STYLE};

fn rect(l: i32, t: i32, r: i32, b: i32) -> Rect {
    Rect { left: l, top: t, right: r, bottom: b }
}

#[test]
fn fullscreen_when_rects_match_and_no_popup() {
    let s = Screenshoter;
    let d = rect(0, 0, 1920, 1080);
    assert!(s.is_exclusive_fullscreen(&d, &d, 0x16CF_0000 & !POPUP_STYLE));
    assert!(s.is_exclusive_fullscreen(&d, &d, 0));
}

#[test]
fn not_fullscreen_with_popup_style() {
    let s = Screenshoter;
    let d = rect(0, 0, 1920, 1080);
    assert!(!s.is_exclusive_fullscreen(&d, &d, POPUP_STYLE));
    assert!(!s.is_exclusive_fullscreen(&d, &d, POPUP_STYLE | 0x0100_0000));
}

#[test]
fn not_fullscreen_on_any_edge_mismatch() {
    let s = Screenshoter;
    let d = rect(0, 0, 1920, 1080);
    assert!(!s.is_exclusive_fullscreen(&rect(1, 0, 1920, 1080), &d, 0));
    assert!(!s.is_exclusive_fullscreen(&rect(0, 1, 1920, 1080), &d, 0));
    assert!(!s.is_exclusive_fullscreen(&rect(0, 0, 1919, 1080), &d, 0));
    assert!(!s.is_exclusive_fullscreen(&rect(0, 0, 1920, 1079), &d, 0));
}

#[test]
fn client_dimensions_of_rect() {
    let s = Screenshoter;
    assert_eq!(s.client_dimensions(&rect(0, 0, 1280, 720)), (1280, 720));
    assert_eq!(s.client_dimensions(&rect(-8, 10, 792, 610)), (800, 600));
}

#[test]
fn scoreboard_region_centred_at_top() {
    let s = Screenshoter;
    let r = s.scoreboard_region(1920, 1080, 619);
    assert_eq!(r, CaptureRegion { x: 960 - 309, y: 0, width: 619, height: 54 });
    assert_eq!(s.scoreboard_region(0, 19, 0), CaptureRegion { x: 0, y: 0, width: 0, height: 0 });
}
