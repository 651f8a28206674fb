//! Where the snap overlay sits: over the maximize button, whose place follows
//! from the fixed caption geometry and the window's DPI.

use vstd::prelude::*;

verus! {

/// Width of one caption button in logical pixels.
pub const BUTTON_WIDTH: u32 = 46;

/// Number of caption buttons to the right of the maximize button (the close
/// button).
pub const RIGHT_INDEX: u32 = 1;

/// `value` logical pixels at `dpi`, rounded to the nearest device pixel
/// (halves up), then taken as an `i32`.
pub open spec fn scaled_spec(value: u32, dpi: u64) -> i32 {
    ((value as u64 * dpi + 48) / 96) as i32
}

/// Scales `value` logical pixels to device pixels at `dpi` (96 is 100%).
pub fn scaled(value: u32, dpi: u64) -> (px: i32)
    requires
        value as u64 * dpi + 48 <= u64::MAX,
    ensures
        px == scaled_spec(value, dpi),
{
    assert(value as u64 * dpi <= u64::MAX - 48);
    let product: u64 = value as u64 * dpi;
    ((product + 48) / 96) as i32
}

/// Position and size of the overlay in the parent's client coordinates.
#[derive(Debug, Clone, Copy, PartialEq, Eq, Structural)]
pub struct OverlayRect {
    pub x: i32,
    pub y: i32,
    pub width: i32,
    pub height: i32,
}

/// At least one pixel.
pub open spec fn at_least_one(v: i32) -> i32 {
    if v < 1 {
        1
    } else {
        v
    }
}

/// Width of a caption button at `dpi`.
pub open spec fn button_width_spec(dpi: u32) -> i32 {
    at_least_one(scaled_spec(BUTTON_WIDTH, dpi as u64))
}

/// The overlay's left edge: as many button widths from the right edge of the
/// client area as there are buttons from the maximize button rightwards.
pub open spec fn overlay_x_spec(client_right: i32, dpi: u32) -> int {
    client_right - button_width_spec(dpi) * (RIGHT_INDEX + 1)
}

/// Whether the overlay's left edge can be computed in `i32`.
pub open spec fn overlay_rect_fits(client_right: i32, dpi: u32) -> bool {
    &&& button_width_spec(dpi) * (RIGHT_INDEX + 1) <= i32::MAX
    &&& i32::MIN <= overlay_x_spec(client_right, dpi) <= i32::MAX
}

/// The overlay rectangle over the maximize button of a client area whose
/// right edge is `client_right`, for a title bar `titlebar_height` logical
/// pixels high.
pub open spec fn overlay_rect_spec(client_right: i32, dpi: u32, titlebar_height: u32) -> OverlayRect {
    OverlayRect {
        x: overlay_x_spec(client_right, dpi) as i32,
        y: 0,
        width: button_width_spec(dpi),
        height: at_least_one(scaled_spec(titlebar_height, dpi as u64)),
    }
}

/// Scaling a 32-bit value by a 32-bit DPI cannot overflow.
proof fn lemma_scale_in_range(value: u32, dpi: u32)
    ensures
        value as u64 * dpi as u64 + 48 <= u64::MAX,
{
    assert(value as u64 * dpi as u64 <= 0xffff_ffffu64 * 0xffff_ffffu64) by (nonlinear_arith);
}

/// Whether [`overlay_rect`] can place the overlay without leaving `i32`.
pub fn overlay_rect_in_range(client_right: i32, dpi: u32) -> (ok: bool)
    ensures
        ok == overlay_rect_fits(client_right, dpi),
{
    proof {
        lemma_scale_in_range(BUTTON_WIDTH, dpi);
    }
    let w = scaled(BUTTON_WIDTH, dpi as u64);
    let width: i64 = if w < 1 {
        1
    } else {
        w as i64
    };
    let span: i64 = width * 2;
    span <= i32::MAX as i64 && client_right as i64 - span >= i32::MIN as i64
        && client_right as i64 - span <= i32::MAX as i64
}

/// Places the overlay over the maximize button.
pub fn overlay_rect(client_right: i32, dpi: u32, titlebar_height: u32) -> (r: OverlayRect)
    requires
        overlay_rect_fits(client_right, dpi),
    ensures
        r == overlay_rect_spec(client_right, dpi, titlebar_height),
{
    proof {
        lemma_scale_in_range(BUTTON_WIDTH, dpi);
        lemma_scale_in_range(titlebar_height, dpi);
    }
    let w = scaled(BUTTON_WIDTH, dpi as u64);
    let width = if w < 1 {
        1
    } else {
        w
    };
    let h = scaled(titlebar_height, dpi as u64);
    let height = if h < 1 {
        1
    } else {
        h
    };
    let x = client_right - width * (RIGHT_INDEX as i32 + 1);
    OverlayRect { x, y: 0, width, height }
}

/// At 100% scaling (96 DPI) a logical pixel is a device pixel.
pub proof fn lemma_scaled_identity_at_96(value: u32)
    requires
        value <= i32::MAX,
    ensures
        scaled_spec(value, 96) == value,
{
    assert((value as u64 * 96u64 + 48) / 96 == value as u64) by (nonlinear_arith)
        requires
            value <= i32::MAX,
    ;
}

/// Scaling rounds to the nearest device pixel: the result is within half a
/// device pixel of the exact value, whenever it fits in `i32`.
pub proof fn lemma_scaled_rounds_to_nearest(value: u32, dpi: u32)
    requires
        (value as u64 * dpi as u64 + 48) / 96 <= i32::MAX,
    ensures
        -48 < scaled_spec(value, dpi as u64) * 96 - value * dpi <= 48,
{
    lemma_scale_in_range(value, dpi);
    let p: int = value * dpi;
    let q: int = (p + 48) / 96;
    assert(q * 96 <= p + 48 < q * 96 + 96) by (nonlinear_arith)
        requires
            q == (p + 48) / 96,
            p >= 0,
    ;
    assert(scaled_spec(value, dpi as u64) == q);
}

/// The overlay covers exactly the second button from the right: its right edge
/// meets the close button, whose right edge is the client area's; it starts at
/// the top and is never empty.
pub proof fn lemma_overlay_over_maximize(client_right: i32, dpi: u32, titlebar_height: u32)
    requires
        overlay_rect_fits(client_right, dpi),
    ensures
        ({
            let r = overlay_rect_spec(client_right, dpi, titlebar_height);
            &&& r.x + r.width + r.width == client_right
            &&& r.y == 0
            &&& r.width >= 1
            &&& r.height >= 1
        }),
{
}

/// At 100% scaling the overlay is one standard caption button wide.
pub proof fn lemma_overlay_width_at_96(client_right: i32, titlebar_height: u32)
    ensures
        overlay_rect_spec(client_right, 96, titlebar_height).width == BUTTON_WIDTH,
{
    lemma_scaled_identity_at_96(BUTTON_WIDTH);
}

/// The overlay is as high as the title bar, scaled to the DPI: at 100% scaling
/// exactly the title bar height, never less than one pixel, and a taller title
/// bar never gives a lower overlay.
pub proof fn lemma_overlay_height_follows_title_bar(client_right: i32, dpi: u32, h1: u32, h2: u32)
    requires
        h1 <= h2,
        (h2 as u64 * dpi as u64 + 48) / 96 <= i32::MAX,
    ensures
        1 <= h1 <= i32::MAX ==> overlay_rect_spec(client_right, 96, h1).height == h1,
        overlay_rect_spec(client_right, dpi, h1).height >= 1,
        overlay_rect_spec(client_right, dpi, h1).height <= overlay_rect_spec(client_right, dpi, h2).height,
        overlay_rect_spec(client_right, dpi, h2).height == if (h2 as u64 * dpi as u64 + 48) / 96 == 0 {
            1
        } else {
            (h2 as u64 * dpi as u64 + 48) / 96
        },
{
    if 1 <= h1 <= i32::MAX {
        lemma_scaled_identity_at_96(h1);
    }
    lemma_scale_in_range(h1, dpi);
    lemma_scale_in_range(h2, dpi);
    assert(h1 as u64 * dpi as u64 <= h2 as u64 * dpi as u64) by (nonlinear_arith)
        requires
            h1 <= h2,
    ;
    let q1 = (h1 as u64 * dpi as u64 + 48) / 96;
    let q2 = (h2 as u64 * dpi as u64 + 48) / 96;
    assert(q1 <= q2) by (nonlinear_arith)
        requires
            h1 as u64 * dpi as u64 <= h2 as u64 * dpi as u64,
            q1 == (h1 as u64 * dpi as u64 + 48) / 96,
            q2 == (h2 as u64 * dpi as u64 + 48) / 96,
    ;
    assert(scaled_spec(h1, dpi as u64) == q1);
    assert(scaled_spec(h2, dpi as u64) == q2);
}

} // verus!
