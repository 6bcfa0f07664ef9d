//! Where toasts go: the anchor, the stacking direction, and the step from
//! one toast to the next.
//!
//! Coordinates are whole layout units. Sums that leave the range of `i64`
//! stop at its ends.

use vstd::prelude::*;

verus! {

/// The space left between two toasts of a stack.
pub const GAP: i64 = 10;

/// The direction in which a stack grows.
#[derive(Debug, Copy, Clone, PartialEq, Eq, Structural)]
pub enum Direction {
    LeftToRight,
    RightToLeft,
    TopDown,
    BottomUp,
}

/// Where on one axis something is held: at the start, the middle or the end.
#[derive(Debug, Copy, Clone, PartialEq, Eq, Structural)]
pub enum Align {
    Min,
    Center,
    Max,
}

/// The corner, edge or centre of the screen that a stack is anchored to.
#[derive(Debug, Copy, Clone, PartialEq, Eq, Structural)]
pub struct Align2 {
    pub x: Align,
    pub y: Align,
}

impl Align2 {
    /// The top-left corner.
    pub fn left_top() -> (corner: Align2)
        ensures
            corner == (Align2 { x: Align::Min, y: Align::Min }),
    {
        Align2 { x: Align::Min, y: Align::Min }
    }
}

/// A point, or an offset from the anchor.
#[derive(Debug, Copy, Clone, PartialEq, Eq, Structural)]
pub struct Pos {
    pub x: i64,
    pub y: i64,
}

/// What the host saw when it drew a toast: the size of its box and whether
/// the pointer was over it.
#[derive(Debug, Copy, Clone, PartialEq, Eq, Structural)]
pub struct Measured {
    pub width: u32,
    pub height: u32,
    pub hovered: bool,
}

/// `v`, or the end of the `i64` range that it lies beyond.
pub open spec fn clamp(v: int) -> i64 {
    if v > i64::MAX {
        i64::MAX
    } else if v < i64::MIN {
        i64::MIN
    } else {
        v as i64
    }
}

/// `clamp(v + by)`.
fn shifted(v: i64, by: i64) -> (r: i64)
    ensures
        r == clamp(v + by),
{
    match v.checked_add(by) {
        Some(sum) => sum,
        None => if by > 0 {
            i64::MAX
        } else {
            i64::MIN
        },
    }
}

impl Pos {
    /// The offset of the toast that follows one of the given size at `self`:
    /// moved along the axis of `direction` by the toast's extent on that
    /// axis and the gap, the other coordinate unchanged.
    pub open spec fn stepped(self, direction: Direction, width: u32, height: u32) -> Pos {
        match direction {
            Direction::LeftToRight => Pos { x: clamp(self.x + (width + GAP)), y: self.y },
            Direction::RightToLeft => Pos { x: clamp(self.x - (width + GAP)), y: self.y },
            Direction::TopDown => Pos { x: self.x, y: clamp(self.y + (height + GAP)) },
            Direction::BottomUp => Pos { x: self.x, y: clamp(self.y - (height + GAP)) },
        }
    }

    /// The offset after each of `sizes` has been stacked from `self` on.
    pub open spec fn stepped_all(self, direction: Direction, sizes: Seq<Measured>) -> Pos
        decreases sizes.len(),
    {
        if sizes.len() == 0 {
            self
        } else {
            self.stepped_all(direction, sizes.drop_last()).stepped(
                direction,
                sizes.last().width,
                sizes.last().height,
            )
        }
    }

    /// Steps past a toast of the given size.
    pub fn step(self, direction: Direction, width: u32, height: u32) -> (next: Pos)
        ensures
            next == self.stepped(direction, width, height),
    {
        let w: i64 = width as i64;
        let h: i64 = height as i64;
        match direction {
            Direction::LeftToRight => Pos { x: shifted(self.x, w + GAP), y: self.y },
            Direction::RightToLeft => Pos { x: shifted(self.x, -(w + GAP)), y: self.y },
            Direction::TopDown => Pos { x: self.x, y: shifted(self.y, h + GAP) },
            Direction::BottomUp => Pos { x: self.x, y: shifted(self.y, -(h + GAP)) },
        }
    }
}

} // verus!
