//! The size of the desktop's work area, as the cat measures it before it
//! starts: the measured area when the system gives a usable one, a
//! 1920 x 1080 screen otherwise.
use vstd::prelude::*;

verus! {

/// A rectangle in screen pixels, as the system reports a monitor's work area.
#[derive(PartialEq, Eq, Structural, Debug, Clone, Copy)]
pub struct WorkArea {
    pub left: i32,
    pub top: i32,
    pub right: i32,
    pub bottom: i32,
}

/// Width assumed when the work area cannot be measured.
pub const FALLBACK_WIDTH: i32 = 1920;

/// Height assumed when the work area cannot be measured.
pub const FALLBACK_HEIGHT: i32 = 1080;

/// The distance between two coordinates.
pub open spec fn span(from: i32, to: i32) -> int {
    if to - from < 0 {
        from - to
    } else {
        to - from
    }
}

/// Whether both sides of the rectangle can be measured in an `i32`.
pub open spec fn spans_fit(area: WorkArea) -> bool {
    &&& i32::MIN < area.right - area.left <= i32::MAX
    &&& i32::MIN < area.bottom - area.top <= i32::MAX
}

/// The size that a measurement leads to: the rectangle's width and height
/// when a rectangle was measured and both are positive, the fallback size
/// otherwise.
pub open spec fn measured_size(area: Option<WorkArea>) -> (int, int) {
    match area {
        Some(a) => if span(a.left, a.right) > 0 && span(a.top, a.bottom) > 0 {
            (span(a.left, a.right), span(a.top, a.bottom))
        } else {
            (FALLBACK_WIDTH as int, FALLBACK_HEIGHT as int)
        },
        None => (FALLBACK_WIDTH as int, FALLBACK_HEIGHT as int),
    }
}

/// The distance between two coordinates, `(to - from).abs()`.
fn distance(from: i32, to: i32) -> (d: i32)
    requires
        i32::MIN < to - from <= i32::MAX,
    ensures
        d == span(from, to),
{
    let diff = to - from;
    if diff < 0 {
        -diff
    } else {
        diff
    }
}

/// Whether both sides of a rectangle can be measured in an `i32`.
pub fn measurable(area: &WorkArea) -> (ok: bool)
    ensures
        ok == spans_fit(*area),
{
    let w: i64 = area.right as i64 - area.left as i64;
    let h: i64 = area.bottom as i64 - area.top as i64;
    let lowest: i64 = i32::MIN as i64;
    let highest: i64 = i32::MAX as i64;
    lowest < w && w <= highest && lowest < h && h <= highest
}

/// The rectangle's width and height when both are positive, `None` when it
/// is empty in either direction.
pub fn usable_size(area: &WorkArea) -> (size: Option<(i32, i32)>)
    requires
        spans_fit(*area),
    ensures
        size == (if span(area.left, area.right) > 0 && span(area.top, area.bottom) > 0 {
            Some((span(area.left, area.right) as i32, span(area.top, area.bottom) as i32))
        } else {
            None
        }),
{
    let width = distance(area.left, area.right);
    let height = distance(area.top, area.bottom);
    if width > 0 && height > 0 {
        Some((width, height))
    } else {
        None
    }
}

/// The work area's size in pixels, from what the system reported: `None`
/// when no monitor or no monitor information could be had.
pub fn work_area_size(area: Option<WorkArea>) -> (size: (i32, i32))
    requires
        area matches Some(a) ==> spans_fit(a),
    ensures
        (size.0 as int, size.1 as int) == measured_size(area),
{
    let measured = match area {
        Some(a) => usable_size(&a),
        None => None,
    };
    match measured {
        Some(size) => size,
        None => (FALLBACK_WIDTH, FALLBACK_HEIGHT),
    }
}

/// A measured rectangle gives its width and height, whichever way round its
/// corners were reported, as long as neither is zero; an empty rectangle or
/// no measurement at all gives 1920 x 1080.
pub proof fn lemma_measured_size(area: WorkArea)
    ensures
        area.left < area.right && area.top < area.bottom ==> measured_size(Some(area))
            == (area.right - area.left, area.bottom - area.top),
        area.right < area.left && area.bottom < area.top ==> measured_size(Some(area))
            == (area.left - area.right, area.top - area.bottom),
        area.left == area.right || area.top == area.bottom ==> measured_size(Some(area)) == (1920int, 1080int),
        measured_size(None) == (1920int, 1080int),
{
}

} // verus!
