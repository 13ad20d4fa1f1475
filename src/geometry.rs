use vstd::prelude::*;
use crate::domain::{DisplayInfo, Rect, Region};

verus! {

/// A point picked on screen; it may lie left of or above the origin.
#[derive(Debug, Clone, Copy, PartialEq, Eq, Structural)]
pub struct PickPoint {
    pub x: i32,
    pub y: i32,
}

pub open spec fn min_i(a: int, b: int) -> int {
    if a <= b { a } else { b }
}

pub open spec fn max_i(a: int, b: int) -> int {
    if a >= b { a } else { b }
}

/// The rectangle spanned by two points, with negative coordinates moved to 0, or `None` when
/// it has no area.
pub open spec fn spanned(start: PickPoint, end: PickPoint) -> Option<Rect> {
    let x0 = max_i(min_i(start.x as int, end.x as int), 0);
    let y0 = max_i(min_i(start.y as int, end.y as int), 0);
    let x1 = max_i(max_i(start.x as int, end.x as int), x0);
    let y1 = max_i(max_i(start.y as int, end.y as int), y0);
    if x1 - x0 == 0 || y1 - y0 == 0 {
        None
    } else {
        Some(Rect { x: x0 as u32, y: y0 as u32, width: (x1 - x0) as u32, height: (y1 - y0) as u32 })
    }
}

/// The rectangle that two picked corners span, in any order.
pub fn normalize_rect(start: &PickPoint, end: &PickPoint) -> (r: Option<Rect>)
    ensures
        r == spanned(*start, *end),
{
    let raw_min_x = if start.x <= end.x { start.x } else { end.x };
    let raw_min_y = if start.y <= end.y { start.y } else { end.y };
    let raw_max_x = if start.x >= end.x { start.x } else { end.x };
    let raw_max_y = if start.y >= end.y { start.y } else { end.y };
    let min_x = if raw_min_x >= 0 { raw_min_x } else { 0 };
    let min_y = if raw_min_y >= 0 { raw_min_y } else { 0 };
    let max_x = if raw_max_x >= min_x { raw_max_x } else { min_x };
    let max_y = if raw_max_y >= min_y { raw_max_y } else { min_y };
    let width = (max_x - min_x) as u32;
    let height = (max_y - min_y) as u32;
    if width == 0 || height == 0 {
        return None;
    }
    Some(Rect { x: min_x as u32, y: min_y as u32, width, height })
}

/// `value - origin`, held within the range of `i32`.
pub fn relative_coord(value: u32, origin: i32) -> (r: i32)
    ensures
        r as int == if (value as int - origin as int) > i32::MAX {
            i32::MAX as int
        } else if (value as int - origin as int) < i32::MIN {
            i32::MIN as int
        } else {
            value as int - origin as int
        },
{
    let v = value as i64 - origin as i64;
    if v > i32::MAX as i64 {
        i32::MAX
    } else if v < i32::MIN as i64 {
        i32::MIN
    } else {
        v as i32
    }
}

/// Whether the region lies entirely on the display.
pub fn contains_region(display: &DisplayInfo, region: &Region) -> (r: bool)
    ensures
        r == (region.rect.x as int >= display.x as int && region.rect.y as int >= display.y as int
            && region.rect.x as int + region.rect.width as int <= display.x as int + display.width as int
            && region.rect.y as int + region.rect.height as int <= display.y as int + display.height as int),
{
    let rx = region.rect.x as i64;
    let ry = region.rect.y as i64;
    let rw = region.rect.width as i64;
    let rh = region.rect.height as i64;
    let dx = display.x as i64;
    let dy = display.y as i64;
    let dw = display.width as i64;
    let dh = display.height as i64;
    rx >= dx && ry >= dy && rx + rw <= dx + dw && ry + rh <= dy + dh
}

} // verus!
