//! Rectangles on the screen and the split of one into parts.
//!
//! The split itself is done by ratatui's constraint solver.

use vstd::prelude::*;
use ratatui::layout as tui;

verus! {

/// A rectangle of terminal cells: its top left corner and its size.
#[derive(Clone, Copy, Debug, PartialEq, Eq, Structural)]
pub struct Rect {
    pub x: u16,
    pub y: u16,
    pub width: u16,
    pub height: u16,
}

/// The direction in which a rectangle is split: side by side, or one part
/// above the other.
#[derive(Clone, Copy, Debug, PartialEq, Eq, Structural)]
pub enum Direction {
    Horizontal,
    Vertical,
}

/// What is asked of one part of a split.
#[derive(Clone, Copy, Debug, PartialEq, Eq, Structural)]
pub enum Constraint {
    /// Exactly this many cells.
    Length(u16),
    /// At least this many cells.
    Min(u16),
    /// A share of what the other parts leave, by weight.
    Fill(u16),
}

/// `value`, moved into the range from `low` to `high`.
pub open spec fn clamp(value: int, low: int, high: int) -> int {
    if value < low {
        low
    } else if value > high {
        high
    } else {
        value
    }
}

impl Rect {
    /// The column behind the last column of this rectangle.
    pub open spec fn right(self) -> int {
        self.x + self.width
    }

    /// The row behind the last row of this rectangle.
    pub open spec fn bottom(self) -> int {
        self.y + self.height
    }

    /// Whether `inner` lies inside this rectangle.
    pub open spec fn encloses(self, inner: Rect) -> bool {
        &&& self.x <= inner.x
        &&& inner.right() <= self.right()
        &&& self.y <= inner.y
        &&& inner.bottom() <= self.bottom()
    }

    /// The part of this rectangle that lies inside `bounds`. Where nothing of
    /// it does, the result is empty and stands at the nearest edge of `bounds`.
    pub open spec fn spec_clip(self, bounds: Rect) -> Rect {
        let left = clamp(self.x as int, bounds.x as int, bounds.right());
        let right = clamp(self.right(), left, bounds.right());
        let top = clamp(self.y as int, bounds.y as int, bounds.bottom());
        let bottom = clamp(self.bottom(), top, bounds.bottom());
        Rect {
            x: left as u16,
            y: top as u16,
            width: (right - left) as u16,
            height: (bottom - top) as u16,
        }
    }

    /// Cuts this rectangle down to what lies inside `bounds`.
    pub fn clip(self, bounds: Rect) -> (clipped: Rect)
        ensures
            clipped == self.spec_clip(bounds),
            bounds.encloses(clipped),
            bounds.encloses(self) ==> clipped == self,
    {
        let (x, width) = clip_span(self.x, self.width, bounds.x, bounds.width);
        let (y, height) = clip_span(self.y, self.height, bounds.y, bounds.height);
        Rect { x, y, width, height }
    }
}

/// Cuts the span of `length` cells from `start` down to what lies inside the
/// span of `room` cells from `low`.
fn clip_span(start: u16, length: u16, low: u16, room: u16) -> (span: (u16, u16))
    ensures
        span.0 == clamp(start as int, low as int, low + room),
        span.0 + span.1 == clamp(start + length, span.0 as int, low + room),
{
    let high: u32 = low as u32 + room as u32;
    let end: u32 = start as u32 + length as u32;
    let first: u32 = if start < low {
        low as u32
    } else if start as u32 > high {
        high
    } else {
        start as u32
    };
    let last: u32 = if end < first {
        first
    } else if end > high {
        high
    } else {
        end
    };
    (first as u16, (last - first) as u16)
}

/// Across the direction of the split, a part is as wide, or as high, as the
/// whole, and begins where the whole begins.
pub open spec fn spans_across(direction: Direction, whole: Rect, part: Rect) -> bool {
    match direction {
        Direction::Horizontal => part.y == whole.y && part.height == whole.height,
        Direction::Vertical => part.x == whole.x && part.width == whole.width,
    }
}

/// Splits `whole` in `direction` into one part for each of `constraints`, in
/// their order, with ratatui's `Layout::new(..).split(..)`.
///
/// Trusted: the result has one rectangle for each constraint, and each takes
/// from `whole` the two fields that lie across the direction of the split.
/// Where the parts begin and end along the direction is the choice of the
/// constraint solver, of which nothing is claimed.
#[verifier::external_body]
fn split(direction: Direction, constraints: &Vec<Constraint>, whole: Rect) -> (parts: Vec<Rect>)
    ensures
        parts@.len() == constraints@.len(),
        forall|i: int|
            0 <= i < parts@.len() ==> spans_across(direction, whole, #[trigger] parts@[i]),
{
    let direction = match direction {
        Direction::Horizontal => tui::Direction::Horizontal,
        Direction::Vertical => tui::Direction::Vertical,
    };
    let constraints = constraints.iter().map(|c| match *c {
        Constraint::Length(n) => tui::Constraint::Length(n),
        Constraint::Min(n) => tui::Constraint::Min(n),
        Constraint::Fill(n) => tui::Constraint::Fill(n),
    });
    let Rect { x, y, width, height } = whole;
    let parts = tui::Layout::new(direction, constraints).split(tui::Rect { x, y, width, height });
    parts.iter().map(|r| Rect { x: r.x, y: r.y, width: r.width, height: r.height }).collect()
}

/// Splits `whole` in `direction` into one part for each of `constraints`, in
/// their order, and keeps every part inside `whole`.
///
/// Which cells a part takes along the direction is the choice of the
/// constraint solver. Whatever it chose, each part lies inside `whole` and
/// spans it across the direction.
pub fn split_within(
    direction: Direction,
    constraints: &Vec<Constraint>,
    whole: Rect,
) -> (parts: Vec<Rect>)
    ensures
        parts@.len() == constraints@.len(),
        forall|i: int|
            0 <= i < parts@.len() ==> whole.encloses(#[trigger] parts@[i]) && spans_across(
                direction,
                whole,
                parts@[i],
            ),
{
    let solved = split(direction, constraints, whole);
    let mut parts: Vec<Rect> = Vec::new();
    let mut next: usize = 0;
    while next < solved.len()
        invariant
            next <= solved@.len(),
            parts@.len() == next,
            forall|i: int|
                0 <= i < solved@.len() ==> spans_across(direction, whole, #[trigger] solved@[i]),
            forall|i: int|
                0 <= i < parts@.len() ==> whole.encloses(#[trigger] parts@[i]) && spans_across(
                    direction,
                    whole,
                    parts@[i],
                ),
        decreases solved@.len() - next,
    {
        parts.push(solved[next].clip(whole));
        next = next + 1;
    }
    parts
}

} // verus!
