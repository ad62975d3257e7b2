use vstd::prelude::*;

verus! {

/// Width of the display in pixels.
pub const DISPLAY_WIDTH: u32 = 1404;

/// Height of the display in pixels.
pub const DISPLAY_HEIGHT: u32 = 1872;

/// An axis-aligned screen rectangle: columns `[left, left + width)`,
/// rows `[top, top + height)`.
#[derive(Clone, Copy, Debug, PartialEq, Eq, Structural)]
pub struct Rect {
    pub top: u32,
    pub left: u32,
    pub width: u32,
    pub height: u32,
}

/// A position on the touch panel.
#[derive(Clone, Copy, Debug, PartialEq, Eq, Structural)]
pub struct Point {
    pub x: u16,
    pub y: u16,
}

/// Whether `p` lies in the half-open rectangle `r`.
pub open spec fn contains(r: Rect, p: Point) -> bool {
    &&& r.left <= p.x
    &&& p.x < r.left + r.width
    &&& r.top <= p.y
    &&& p.y < r.top + r.height
}

/// Whether the touch position `pos` falls inside `hitbox`.
pub fn is_hitting(pos: Point, hitbox: Rect) -> (r: bool)
    ensures
        r == contains(hitbox, pos),
{
    let x = pos.x as u64;
    let y = pos.y as u64;
    x >= hitbox.left as u64 && x < hitbox.left as u64 + hitbox.width as u64
        && y >= hitbox.top as u64 && y < hitbox.top as u64 + hitbox.height as u64
}

/// Where a drawing of `size` starts along an axis of length `extent` when it is centered.
pub open spec fn centered(extent: int, size: int) -> int {
    extent / 2 - size / 2
}

/// The drawing position of something `width` by `height`: each coordinate that
/// is given is kept, each missing one centers the drawing on the display.
pub fn resolve_position(x: Option<i32>, y: Option<i32>, width: u32, height: u32) -> (r: (i32, i32))
    ensures
        r.0 == match x {
            Some(v) => v as int,
            None => centered(DISPLAY_WIDTH as int, width as int),
        },
        r.1 == match y {
            Some(v) => v as int,
            None => centered(DISPLAY_HEIGHT as int, height as int),
        },
{
    let px = match x {
        Some(v) => v,
        None => (DISPLAY_WIDTH / 2) as i32 - (width / 2) as i32,
    };
    let py = match y {
        Some(v) => v,
        None => (DISPLAY_HEIGHT / 2) as i32 - (height / 2) as i32,
    };
    (px, py)
}

/// The screen area covered by a drawing of `width` by `height` placed at
/// (`x`, `y`); a coordinate is stored as its 32-bit pattern.
pub fn placed_rect(x: i32, y: i32, width: u32, height: u32) -> (r: Rect)
    ensures
        r.left == x as u32,
        r.top == y as u32,
        r.width == width,
        r.height == height,
        x >= 0 ==> r.left == x,
        y >= 0 ==> r.top == y,
{
    Rect { top: #[verifier::truncate] (y as u32), left: #[verifier::truncate] (x as u32), width, height }
}

/// The frame drawn round a button's text: `hgap` beside it on each side and
/// `vgap` above and below it.
pub fn button_frame(text: Rect, vgap: u32, hgap: u32) -> (r: Rect)
    requires
        text.left >= hgap,
        text.top >= vgap,
        text.width + 2 * hgap <= u32::MAX,
        text.height + 2 * vgap <= u32::MAX,
    ensures
        r == (Rect {
            top: (text.top - vgap) as u32,
            left: (text.left - hgap) as u32,
            width: (text.width + 2 * hgap) as u32,
            height: (text.height + 2 * vgap) as u32,
        }),
{
    Rect {
        top: text.top - vgap,
        left: text.left - hgap,
        width: hgap + text.width + hgap,
        height: vgap + text.height + vgap,
    }
}

/// The row `gap` pixels below the bottom edge of `r`.
pub fn row_below(r: Rect, gap: u32) -> (res: i64)
    ensures
        res == r.top + r.height + gap,
{
    r.top as i64 + r.height as i64 + gap as i64
}

} // verus!
