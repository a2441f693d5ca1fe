use scoreboard_sampler::bitmap::{InfoHeader, BI_RGB};
use scoreboard_sampler::capture::{CaptureError, Rect};
use scoreboard_sampler::session::{CaptureAction, CaptureEvent, CaptureSession, Resource};

fn screen() -> Rect {
    Rect { left: 0, top: 0, right: 1920, bottom: 1080 }
}

fn queried() -> InfoHeader {
    InfoHeader {
        size: 40,
        width: 619,
        height: 54,
        planes: 1,
        bit_count: 24,
        compression: BI_RGB,
        size_image: 619 * 54 * 3 + 54 * 3,
        x_pels_per_meter: 0,
        y_pels_per_meter: 0,
        clr_used: 0,
        clr_important: 0,
    }
}

#[test]
fn missing_window_is_not_found() {
    let (mut s, a) = CaptureSession::start();
    assert!(matches!(a, CaptureAction::FindWindow));
    let a = s.step(CaptureEvent::Located(false));
    assert!(matches!(a, CaptureAction::Finish(Err(CaptureError::WindowNotFound))));
}

#[test]
fn successful_capture_releases_in_reverse() {
    let (mut s, _) = CaptureSession::start();
    assert!(matches!(s.step(CaptureEvent::Located(true)), CaptureAction::InspectWindow));
    let a = s.step(CaptureEvent::Inspected { client: screen(), desktop: screen(), style: 0 });
    assert!(matches!(a, CaptureAction::AcquireSurface { desktop: true }));
    assert!(matches!(s.step(CaptureEvent::Done(true)), CaptureAction::CreateMemorySurface));
    assert!(matches!(s.step(CaptureEvent::Done(true)), CaptureAction::CreateBitmap));
    assert!(matches!(s.step(CaptureEvent::Done(true)), CaptureAction::SelectBitmap));
    assert!(matches!(s.step(CaptureEvent::Done(true)), CaptureAction::CopyRegion));
    assert!(matches!(s.step(CaptureEvent::Done(true)), CaptureAction::QueryHeader));
    let a = s.step(CaptureEvent::HeaderQueried(Some(queried())));
    let asked = match a {
        CaptureAction::SizeReadback(h) => {
            assert_eq!(h.height, -54);
            assert_eq!(h.bit_count, 32);
            h
        }
        _ => panic!("expected a size query"),
    };
    let reported = InfoHeader { size_image: 619 * 54 * 4 + 8, ..asked };
    match s.step(CaptureEvent::HeaderQueried(Some(reported))) {
        CaptureAction::ReadPixels(h) => {
            assert_eq!(h.height, -54);
            assert_eq!(h.bit_count, 32);
            assert_eq!(h.size_image, 619 * 54 * 4 + 8);
        }
        _ => panic!("expected a read-back"),
    }
    let mut released = Vec::new();
    let mut a = s.step(CaptureEvent::Done(true));
    while let CaptureAction::Release(r) = a {
        released.push(r);
        assert!(!s.accepts(&CaptureEvent::Done(true)));
        a = s.step(CaptureEvent::Released);
    }
    assert_eq!(
        released,
        vec![Resource::Selection, Resource::Bitmap, Resource::MemorySurface, Resource::SourceSurface]
    );
    match a {
        CaptureAction::Finish(Ok(h)) => assert_eq!(h.height, -54),
        _ => panic!("expected a finished capture"),
    }
}

#[test]
fn windowed_target_reads_window_surface() {
    let (mut s, _) = CaptureSession::start();
    s.step(CaptureEvent::Located(true));
    let client = Rect { left: 0, top: 0, right: 1280, bottom: 720 };
    let a = s.step(CaptureEvent::Inspected { client, desktop: screen(), style: 0 });
    assert!(matches!(a, CaptureAction::AcquireSurface { desktop: false }));
}

#[test]
fn bitmap_failure_releases_and_reports() {
    let (mut s, _) = CaptureSession::start();
    s.step(CaptureEvent::Located(true));
    s.step(CaptureEvent::Inspected { client: screen(), desktop: screen(), style: 0 });
    s.step(CaptureEvent::Done(true));
    s.step(CaptureEvent::Done(true));
    let mut released = Vec::new();
    let mut a = s.step(CaptureEvent::Done(false));
    while let CaptureAction::Release(r) = a {
        released.push(r);
        a = s.step(CaptureEvent::Released);
    }
    assert_eq!(released, vec![Resource::MemorySurface, Resource::SourceSurface]);
    assert!(matches!(a, CaptureAction::Finish(Err(CaptureError::NoCompatibleBitmap))));
}

#[test]
fn each_failing_step_reports_its_error() {
    let expected = [
        CaptureError::NoDrawingSurface,
        CaptureError::NoCompatibleSurface,
        CaptureError::NoCompatibleBitmap,
        CaptureError::NoCompatibleBitmap,
        CaptureError::ReadbackFailed,
    ];
    for (k, err) in expected.iter().enumerate() {
        let (mut s, _) = CaptureSession::start();
        s.step(CaptureEvent::Located(true));
        s.step(CaptureEvent::Inspected { client: screen(), desktop: screen(), style: 0 });
        for _ in 0..k {
            s.step(CaptureEvent::Done(true));
        }
        let mut a = s.step(CaptureEvent::Done(false));
        let mut n = 0;
        while let CaptureAction::Release(_) = a {
            n += 1;
            a = s.step(CaptureEvent::Released);
        }
        assert_eq!(n, k);
        match a {
            CaptureAction::Finish(Err(e)) => assert_eq!(e, *err),
            _ => panic!("expected a failure"),
        }
    }
}

#[test]
fn missing_header_is_readback_failure() {
    let (mut s, _) = CaptureSession::start();
    s.step(CaptureEvent::Located(true));
    s.step(CaptureEvent::Inspected { client: screen(), desktop: screen(), style: 0 });
    for _ in 0..5 {
        s.step(CaptureEvent::Done(true));
    }
    let mut a = s.step(CaptureEvent::HeaderQueried(None));
    while let CaptureAction::Release(_) = a {
        a = s.step(CaptureEvent::Released);
    }
    assert!(matches!(a, CaptureAction::Finish(Err(CaptureError::ReadbackFailed))));
}

#[test]
fn missing_readback_size_is_readback_failure() {
    let (mut s, _) = CaptureSession::start();
    s.step(CaptureEvent::Located(true));
    s.step(CaptureEvent::Inspected { client: screen(), desktop: screen(), style: 0 });
    for _ in 0..5 {
        s.step(CaptureEvent::Done(true));
    }
    s.step(CaptureEvent::HeaderQueried(Some(queried())));
    let mut a = s.step(CaptureEvent::HeaderQueried(None));
    let mut n = 0;
    while let CaptureAction::Release(_) = a {
        n += 1;
        a = s.step(CaptureEvent::Released);
    }
    assert_eq!(n, 4);
    assert!(matches!(a, CaptureAction::Finish(Err(CaptureError::ReadbackFailed))));
}

#[test]
fn session_rejects_unasked_events() {
    let (s, _) = CaptureSession::start();
    assert!(s.accepts(&CaptureEvent::Located(true)));
    assert!(!s.accepts(&CaptureEvent::Done(true)));
    assert!(!s.accepts(&CaptureEvent::Released));
}
