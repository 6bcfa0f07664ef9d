//! What holds of the library as a whole: of progress, of closing, of the
//! time a toast lives, of the order of a stack and of custom contents.

use crate::kind::ToastKind;
use crate::layout::{clamp, Direction, Measured, Pos, GAP};
use crate::toast::{counted, Toast};
use crate::toasts::{survivors, ToastsView};
use crate::ttl::{Countdown, Ttl};
use vstd::prelude::*;

verus! {

/// Progress lies between zero and one.
pub proof fn lemma_progress_in_unit(countdown: Countdown)
    requires
        countdown.wf(),
    ensures
        countdown.fraction_left().in_unit(),
{
}

/// Progress falls strictly with the remaining time: of two countdowns with
/// the same bounded, positive initial lifetime, the one with less time left
/// has made strictly less progress to show. With all its time left the
/// progress is one, with none left it is zero.
pub proof fn lemma_progress_strictly_monotone(less: Countdown, more: Countdown)
    requires
        less.wf(),
        more.wf(),
        less.initial() == more.initial(),
        more.initial() matches Ttl::Nanos(initial) && initial > 0,
        less.remaining() != more.remaining(),
        less.remaining().le(more.remaining()),
    ensures
        less.fraction_left().lt(more.fraction_left()),
        more.remaining() == more.initial() ==> more.fraction_left().numer
            == more.fraction_left().denom,
        less.remaining() == Ttl::Nanos(0) ==> less.fraction_left().is_zero(),
{
    let initial = more.initial()->Nanos_0;
    let a = less.remaining()->Nanos_0;
    let b = more.remaining()->Nanos_0;
    assert(a * initial < b * initial) by (nonlinear_arith)
        requires
            a < b,
            initial > 0,
    ;
}

/// A toast that never expires, or that never had any time, shows no
/// progress, whatever it has left.
pub proof fn lemma_progress_zero_without_lifetime(countdown: Countdown)
    requires
        countdown.initial() is Forever || countdown.initial() == Ttl::Nanos(0),
    ensures
        countdown.fraction_left().is_zero(),
{
}

/// Closing is idempotent: a closed toast has no time left, closing it again
/// changes nothing, and no list of survivors holds it.
pub proof fn lemma_close_idempotent(toast: Toast, others: Seq<Toast>)
    ensures
        toast.closed().options.countdown.remaining() == Ttl::Nanos(0),
        toast.closed().closed() == toast.closed(),
        !toast.closed().alive(),
        !survivors(others).contains(toast.closed()),
{
    lemma_survivors_are_alive(others);
}

/// Those who stay are alive and were there before, and everyone alive
/// stays.
pub proof fn lemma_survivors_are_alive(toasts: Seq<Toast>)
    ensures
        forall|toast: Toast| #[trigger]
            survivors(toasts).contains(toast) <==> toasts.contains(toast) && toast.alive(),
{
    let alive = |toast: Toast| toast.alive();
    assert forall|toast: Toast| #[trigger]
        survivors(toasts).contains(toast) <==> toasts.contains(toast) && toast.alive() by {
        if survivors(toasts).contains(toast) {
            let i = choose|i: int| 0 <= i < survivors(toasts).len() && survivors(toasts)[i] == toast;
            toasts.lemma_filter_pred(alive, i);
            toasts.lemma_filter_contains_rev(alive, toast);
        }
        if toasts.contains(toast) && toast.alive() {
            let i = choose|i: int| 0 <= i < toasts.len() && toasts[i] == toast;
            toasts.lemma_filter_contains(alive, i);
        }
    }
}

/// Frames change nothing of a toast but the time it has left, and that is
/// what was left before, less the time that counted.
pub proof fn lemma_aged_through(toast: Toast, frames: Seq<(bool, u128)>)
    ensures
        toast.aged_through(frames).kind == toast.kind,
        toast.aged_through(frames).text == toast.text,
        toast.aged_through(frames).style == toast.style,
        toast.aged_through(frames).options.show_icon == toast.options.show_icon,
        toast.aged_through(frames).options.show_progress == toast.options.show_progress,
        toast.aged_through(frames).options.countdown.initial() == toast.options.countdown.initial(),
        toast.aged_through(frames).options.countdown.remaining()
            == toast.options.countdown.remaining().after(counted(frames)),
    decreases frames.len(),
{
    if frames.len() > 0 {
        lemma_aged_through(toast, frames.drop_last());
    }
}

/// Once the frames in which a toast with a bounded lifetime was counting
/// down add up to that lifetime, the toast has no time left, and no list of
/// survivors holds it: it is gone when the frame ends.
pub proof fn lemma_evicted_when_time_is_up(toast: Toast, frames: Seq<(bool, u128)>, others: Seq<Toast>)
    requires
        toast.options.countdown.wf(),
        toast.options.countdown.initial() matches Ttl::Nanos(initial) && counted(frames) >= initial,
    ensures
        !toast.aged_through(frames).alive(),
        !survivors(others).contains(toast.aged_through(frames)),
{
    lemma_aged_through(toast, frames);
    lemma_survivors_are_alive(others);
}

/// There is no way back: a toast without time left has none after any
/// frame, and none after it is closed.
pub proof fn lemma_expired_stays_expired(toast: Toast, hovered: bool, dt: nat)
    requires
        !toast.alive(),
    ensures
        !toast.aged(hovered, dt).alive(),
        !toast.closed().alive(),
{
}

/// As long as the frames that counted add up to less than what a toast has
/// left, the toast is alive.
pub proof fn lemma_alive_while_time_is_left(toast: Toast, frames: Seq<(bool, u128)>)
    requires
        toast.options.countdown.remaining() matches Ttl::Nanos(left) ==> counted(frames) < left,
    ensures
        toast.aged_through(frames).alive(),
{
    lemma_aged_through(toast, frames);
}

/// The offset of each toast but the first is one step from the offset of
/// the toast before it.
pub proof fn lemma_next_offset(start: Pos, direction: Direction, sizes: Seq<Measured>, k: int)
    requires
        0 <= k < sizes.len(),
    ensures
        start.stepped_all(direction, sizes.take(k + 1)) == start.stepped_all(
            direction,
            sizes.take(k),
        ).stepped(direction, sizes[k].width, sizes[k].height),
{
    assert(sizes.take(k + 1).drop_last() =~= sizes.take(k));
}

/// Of two toasts of a stack, the later one starts at or beyond the far edge
/// of the earlier one plus the gap, along the direction of the stack,
/// whatever the sizes of the toasts; across the direction both have the same
/// coordinate. Top-down, the later toast's offset is at least the earlier
/// one's plus its height and the gap: in a stack anchored by its top-left
/// corner, where the offset of a toast is its top-left corner, the later
/// toast begins below the bottom of the earlier one and the gap. A sum
/// beyond the range of the coordinates counts as the end of the range.
pub proof fn lemma_stacking(start: Pos, direction: Direction, sizes: Seq<Measured>, a: int, b: int)
    requires
        0 <= a < b <= sizes.len(),
    ensures
        ({
            let first = start.stepped_all(direction, sizes.take(a));
            let second = start.stepped_all(direction, sizes.take(b));
            match direction {
                Direction::TopDown => second.x == first.x && second.y >= clamp(
                    first.y + sizes[a].height + GAP,
                ),
                Direction::BottomUp => second.x == first.x && second.y <= clamp(
                    first.y - sizes[a].height - GAP,
                ),
                Direction::LeftToRight => second.y == first.y && second.x >= clamp(
                    first.x + sizes[a].width + GAP,
                ),
                Direction::RightToLeft => second.y == first.y && second.x <= clamp(
                    first.x - sizes[a].width - GAP,
                ),
            }
        }),
    decreases b - a,
{
    lemma_next_offset(start, direction, sizes, b - 1);
    if a < b - 1 {
        lemma_stacking(start, direction, sizes, a, b - 1);
    }
}

/// Once something is registered for a kind, it is what draws the toasts of
/// that kind, in place of the default contents and of whatever was
/// registered for the kind before; toasts of every other kind are drawn as
/// before.
pub proof fn lemma_custom_contents_override<R>(
    toasts: ToastsView<R>,
    kind: ToastKind,
    add_contents: R,
    other: ToastKind,
)
    ensures
        toasts.with_custom(kind, add_contents).contents_for(kind) == Some(add_contents),
        other != kind ==> toasts.with_custom(kind, add_contents).contents_for(other)
            == toasts.contents_for(other),
{
}

} // verus!
