use vstd::prelude::*;

verus! {

/// The window-style flag of popup windows, which carry no windowed chrome.
pub const POPUP_STYLE: usize = 0x8000_0000;

/// A rectangle in screen or client coordinates, edges inclusive of `left`
/// and `top` and exclusive of `right` and `bottom`.
#[derive(Debug, Clone, Copy, PartialEq, Eq, Structural)]
pub struct Rect {
    pub left: i32,
    pub top: i32,
    pub right: i32,
    pub bottom: i32,
}

/// A region to capture, in the coordinates of the surface it is read from.
#[derive(Debug, Clone, Copy, PartialEq, Eq, Structural)]
pub struct CaptureRegion {
    pub x: i32,
    pub y: i32,
    pub width: i32,
    pub height: i32,
}

/// Why a capture did not produce an image.
#[derive(Debug, Clone, Copy, PartialEq, Eq, Structural)]
pub enum CaptureError {
    /// No window carries the requested title.
    WindowNotFound,
    /// The drawing surface of the window or desktop could not be acquired.
    NoDrawingSurface,
    /// No memory surface compatible with the source could be created.
    NoCompatibleSurface,
    /// No bitmap compatible with the source could be created.
    NoCompatibleBitmap,
    /// The copied pixels could not be read back.
    ReadbackFailed,
    /// The encoded pixels could not be decoded into an image.
    DecodeFailed,
}

/// Captures a window's pixels; the platform calls stand outside this crate.
pub struct Screenshoter;

/// The size of the client area that `client` spans.
pub open spec fn rect_size(client: Rect) -> (int, int) {
    (client.right - client.left, client.bottom - client.top)
}

/// Whether a window with client rectangle `client` and style bits `style`
/// is an exclusive-fullscreen surface on a desktop spanning `desktop`.
pub open spec fn exclusive_fullscreen(client: Rect, desktop: Rect, style: usize) -> bool {
    client == desktop && style & POPUP_STYLE == 0
}

/// The height of the scoreboard strip: a twentieth of the client height.
pub open spec fn strip_height(client_height: int) -> int {
    client_height / 20
}

/// The scoreboard strip of width `strip_width` centred at the top of a client
/// area of the given size.
pub open spec fn scoreboard_region_of(client_width: int, client_height: int, strip_width: int) -> CaptureRegion {
    CaptureRegion {
        x: (client_width / 2 - strip_width / 2) as i32,
        y: 0,
        width: strip_width as i32,
        height: strip_height(client_height) as i32,
    }
}

impl Screenshoter {
    /// Width and height of a window whose client rectangle is `client`.
    pub fn client_dimensions(&self, client: &Rect) -> (r: (i32, i32))
        requires
            i32::MIN <= client.right - client.left <= i32::MAX,
            i32::MIN <= client.bottom - client.top <= i32::MAX,
        ensures
            (r.0 as int, r.1 as int) == rect_size(*client),
    {
        (client.right - client.left, client.bottom - client.top)
    }

    /// Whether capture must read the desktop surface instead of the window:
    /// the window's client rectangle is the desktop's on all four edges and
    /// the window does not carry the popup style.
    pub fn is_exclusive_fullscreen(&self, client: &Rect, desktop: &Rect, style: usize) -> (r: bool)
        ensures
            r == exclusive_fullscreen(*client, *desktop, style),
    {
        let same_rect = client.left == desktop.left && client.top == desktop.top
            && client.right == desktop.right && client.bottom == desktop.bottom;
        same_rect && style & POPUP_STYLE == 0
    }

    /// The region of the scoreboard strip in a client area of the given size,
    /// for a strip `strip_width` wide.
    pub fn scoreboard_region(&self, client_width: i32, client_height: i32, strip_width: i32) -> (r: CaptureRegion)
        requires
            client_width >= 0,
            client_height >= 0,
            strip_width >= 0,
        ensures
            r == scoreboard_region_of(client_width as int, client_height as int, strip_width as int),
    {
        CaptureRegion {
            x: client_width / 2 - strip_width / 2,
            y: 0,
            width: strip_width,
            height: client_height / 20,
        }
    }
}

} // verus!
