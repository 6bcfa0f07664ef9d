//! The manager: what is queued, where the stack stands, who draws which
//! kind, and the steps of a frame.

use crate::kind::ToastKind;
use crate::layout::{Align, Align2, Direction, Measured, Pos};
use crate::options::ToastOptions;
use crate::toast::Toast;
use crate::ttl::Ttl;
use egui::WidgetText;
use std::collections::HashMap;
use vstd::prelude::*;

verus! {

broadcast use vstd::std_specs::hash::group_hash_axioms;

/// The toasts of `toasts` that have time left, in their order.
pub open spec fn survivors(toasts: Seq<Toast>) -> Seq<Toast> {
    toasts.filter(|toast: Toast| toast.alive())
}

/// What the host is to do once a toast has been drawn and settled.
#[derive(Debug, Copy, Clone, PartialEq, Eq, Structural)]
pub struct Step {
    /// The offset at which the next toast is drawn.
    pub offset: Pos,
    /// In how many nanoseconds the toast wants to be drawn again, if it
    /// is counting down.
    pub repaint_after: Option<u128>,
}

/// The manager of a stack of toasts. `R` is what draws a toast of a kind
/// that the application draws itself; the manager keeps one per kind and
/// never calls it.
pub struct Toasts<R> {
    align: Align2,
    offset: Pos,
    direction: Direction,
    custom: HashMap<u64, R>,
    added: Vec<Toast>,
}

/// What a manager holds.
pub struct ToastsView<R> {
    /// The part of the screen that the stack is anchored to.
    pub align: Align2,
    /// The offset of the first toast from the anchor.
    pub offset: Pos,
    /// The direction in which the stack grows.
    pub direction: Direction,
    /// The kinds that the application draws itself, each with what draws it.
    pub custom: Map<ToastKind, R>,
    /// The toasts added since the last frame, oldest first.
    pub added: Seq<Toast>,
}

impl<R> ToastsView<R> {
    /// A manager as `new` makes it: anchored ten units in from the top-left
    /// corner, growing downwards, with nothing registered or queued.
    pub open spec fn standard() -> ToastsView<R> {
        ToastsView {
            align: Align2 { x: Align::Min, y: Align::Min },
            offset: Pos { x: 10, y: 10 },
            direction: Direction::TopDown,
            custom: Map::empty(),
            added: Seq::empty(),
        }
    }

    /// What draws a toast of `kind`: what was registered for the kind, or
    /// nothing, which leaves the toast to the default contents.
    pub open spec fn contents_for(self, kind: ToastKind) -> Option<R> {
        if self.custom.contains_key(kind) {
            Some(self.custom[kind])
        } else {
            None
        }
    }

    /// This manager with `add_contents` registered for `kind`.
    pub open spec fn with_custom(self, kind: ToastKind, add_contents: R) -> ToastsView<R> {
        ToastsView { custom: self.custom.insert(kind, add_contents), ..self }
    }

    /// This manager with `toast` queued behind the others.
    pub open spec fn with_added(self, toast: Toast) -> ToastsView<R> {
        ToastsView { added: self.added.push(toast), ..self }
    }
}

/// The registrations by kind that a map by index stands for.
spec fn by_kind<R>(by_index: Map<u64, R>) -> Map<ToastKind, R> {
    Map::new(
        |kind: ToastKind| by_index.contains_key(kind.index() as u64),
        |kind: ToastKind| by_index[kind.index() as u64],
    )
}

/// What the toast wants repainted after a frame: its remaining time, if it
/// was counting down in that frame and its time is bounded.
pub open spec fn repaint_delay(toast: Toast, hovered: bool) -> Option<u128> {
    match toast.options.countdown.remaining() {
        Ttl::Nanos(left) if !hovered => Some(left),
        _ => None,
    }
}

impl<R> View for Toasts<R> {
    type V = ToastsView<R>;

    closed spec fn view(&self) -> ToastsView<R> {
        ToastsView {
            align: self.align,
            offset: self.offset,
            direction: self.direction,
            custom: by_kind(self.custom@),
            added: self.added@,
        }
    }
}

impl<R> Toasts<R> {
    /// A manager anchored ten units in from the top-left corner, growing
    /// downwards, with nothing registered or queued.
    pub fn new() -> (toasts: Toasts<R>)
        ensures
            toasts@ == ToastsView::<R>::standard(),
    {
        let toasts = Toasts {
            align: Align2::left_top(),
            offset: Pos { x: 10, y: 10 },
            direction: Direction::TopDown,
            custom: HashMap::new(),
            added: Vec::new(),
        };
        assert(by_kind(toasts.custom@) =~= Map::<ToastKind, R>::empty());
        toasts
    }

    /// Position where the toasts show up.
    ///
    /// The toasts start from this position and stack up in the direction
    /// set with [`Self::direction`].
    pub fn position(self, position: Pos) -> (toasts: Toasts<R>)
        ensures
            toasts@ == (ToastsView { offset: position, ..self@ }),
    {
        Toasts { offset: position, ..self }
    }

    /// Anchor for the toasts.
    ///
    /// With the top-left corner and the offset (10, 10), the first toast has
    /// its top-left corner at (10, 10).
    pub fn anchor(self, anchor: Align2, offset: Pos) -> (toasts: Toasts<R>)
        ensures
            toasts@ == (ToastsView { align: anchor, offset, ..self@ }),
    {
        Toasts { align: anchor, offset, ..self }
    }

    /// Direction in which the toasts stack up.
    pub fn direction(self, direction: Direction) -> (toasts: Toasts<R>)
        ensures
            toasts@ == (ToastsView { direction, ..self@ }),
    {
        Toasts { direction, ..self }
    }

    /// Registers what draws the toasts of `kind`, in place of the default
    /// contents and of anything registered for the kind before.
    pub fn custom_contents(self, kind: ToastKind, add_contents: R) -> (toasts: Toasts<R>)
        ensures
            toasts@ == self@.with_custom(kind, add_contents),
    {
        let ghost before = self.custom@;
        let mut toasts = self;
        toasts.custom.insert(kind.key(), add_contents);
        proof {
            assert forall|other: ToastKind|
                other.index() as u64 == kind.index() as u64 implies other == kind by {
                ToastKind::lemma_index_injective(other, kind);
            }
            assert(by_kind(toasts.custom@) =~= by_kind(before).insert(kind, add_contents));
        }
        toasts
    }

    /// Queues a toast. It joins the list at the next frame.
    pub fn add(&mut self, toast: Toast) -> (toasts: &mut Toasts<R>)
        ensures
            toasts@ == old(self)@.with_added(toast),
            *final(self) == *final(toasts),
    {
        self.added.push(toast);
        self
    }

    /// Queues an info toast with the given text and options, in the
    /// standard style.
    pub fn info(&mut self, text: WidgetText, options: ToastOptions) -> (toasts: &mut Toasts<R>)
        ensures
            toasts@ == old(self)@.with_added(Toast::of_kind(ToastKind::Info, text, options)),
            *final(self) == *final(toasts),
    {
        self.add_kind(ToastKind::Info, text, options)
    }

    /// Queues a warning toast with the given text and options, in the
    /// standard style.
    pub fn warning(&mut self, text: WidgetText, options: ToastOptions) -> (toasts: &mut Toasts<R>)
        ensures
            toasts@ == old(self)@.with_added(Toast::of_kind(ToastKind::Warning, text, options)),
            *final(self) == *final(toasts),
    {
        self.add_kind(ToastKind::Warning, text, options)
    }

    /// Queues an error toast with the given text and options, in the
    /// standard style.
    pub fn error(&mut self, text: WidgetText, options: ToastOptions) -> (toasts: &mut Toasts<R>)
        ensures
            toasts@ == old(self)@.with_added(Toast::of_kind(ToastKind::Error, text, options)),
            *final(self) == *final(toasts),
    {
        self.add_kind(ToastKind::Error, text, options)
    }

    /// Queues a success toast with the given text and options, in the
    /// standard style.
    pub fn success(&mut self, text: WidgetText, options: ToastOptions) -> (toasts: &mut Toasts<R>)
        ensures
            toasts@ == old(self)@.with_added(Toast::of_kind(ToastKind::Success, text, options)),
            *final(self) == *final(toasts),
    {
        self.add_kind(ToastKind::Success, text, options)
    }

    fn add_kind(&mut self, kind: ToastKind, text: WidgetText, options: ToastOptions) -> (toasts:
        &mut Toasts<R>)
        ensures
            toasts@ == old(self)@.with_added(Toast::of_kind(kind, text, options)),
            *final(self) == *final(toasts),
    {
        self.add(Toast::new().kind(kind).text(text).options(options))
    }

    /// What draws a toast of `kind`, if the application draws that kind
    /// itself.
    pub fn contents_for(&self, kind: ToastKind) -> (add_contents: Option<&R>)
        ensures
            add_contents == match self@.contents_for(kind) {
                Some(registered) => Some(&registered),
                None => None,
            },
    {
        let key = kind.key();
        self.custom.get(&key)
    }

    /// The part of the screen that the stack is anchored to.
    pub fn anchor_align(&self) -> (align: Align2)
        ensures
            align == self@.align,
    {
        self.align
    }

    /// The offset of the first toast from the anchor.
    pub fn anchor_offset(&self) -> (offset: Pos)
        ensures
            offset == self@.offset,
    {
        self.offset
    }

    /// The direction in which the stack grows.
    pub fn stacking_direction(&self) -> (direction: Direction)
        ensures
            direction == self@.direction,
    {
        self.direction
    }

    /// Starts a frame: the toasts queued since the last one join `live`,
    /// behind those already there and in the order in which they were
    /// added.
    pub fn begin_frame(&mut self, live: &mut Vec<Toast>)
        ensures
            final(live)@ == old(live)@ + old(self)@.added,
            final(self)@ == (ToastsView { added: Seq::empty(), ..old(self)@ }),
    {
        live.append(&mut self.added);
    }

    /// Ends the drawing of one toast. The host drew `toast` at `at` and
    /// measured it; `dt` nanoseconds have passed since the last frame.
    /// The toast is that much older unless the pointer was over it, and the
    /// next toast goes one step further in the stack's direction.
    pub fn settle(&self, toast: &mut Toast, at: Pos, measured: Measured, dt: u128) -> (step: Step)
        ensures
            *final(toast) == old(toast).aged(measured.hovered, dt as nat),
            step.offset == at.stepped(self@.direction, measured.width, measured.height),
            step.repaint_after == repaint_delay(*final(toast), measured.hovered),
    {
        let mut repaint_after: Option<u128> = None;
        if !measured.hovered {
            toast.options.countdown.tick(dt);
            if let Ttl::Nanos(left) = toast.options.countdown.remaining_ttl() {
                repaint_after = Some(left);
            }
        }
        Step { offset: at.step(self.direction, measured.width, measured.height), repaint_after }
    }

    /// Ends a frame: the toasts whose time has run out leave `live`. What
    /// stays keeps its order, and is what the next frame starts from.
    pub fn end_frame(&self, live: &mut Vec<Toast>)
        ensures
            final(live)@ == survivors(old(live)@),
            forall|i: int| 0 <= i < final(live)@.len() ==> (#[trigger] final(live)@[i]).alive(),
            (forall|i: int| 0 <= i < old(live)@.len() ==> (#[trigger] old(live)@[i]).alive())
                ==> final(live)@ == old(live)@,
            (forall|i: int| 0 <= i < old(live)@.len() ==> !(#[trigger] old(live)@[i]).alive())
                ==> final(live)@.len() == 0,
    {
        let mut all: Vec<Toast> = Vec::new();
        all.append(live);
        let ghost drawn = all@;
        proof {
            reveal(Seq::filter);
            assert(drawn.take(0) =~= Seq::<Toast>::empty());
        }
        for toast in it: all
            invariant
                it.seq() == drawn,
                live@ == survivors(drawn.take(it.index() as int)),
        {
            proof {
                lemma_survivors_step(drawn, it.index() as int);
            }
            if toast.is_alive() {
                live.push(toast);
            }
        }
        proof {
            assert(drawn.take(drawn.len() as int) =~= drawn);
            lemma_survivors_all_or_none(drawn);
        }
    }
}

/// One more toast examined: it joins the survivors of those before it if it
/// has time left, and changes nothing if it has none.
pub proof fn lemma_survivors_step(toasts: Seq<Toast>, k: int)
    requires
        0 <= k < toasts.len(),
    ensures
        survivors(toasts.take(k + 1)) == if toasts[k].alive() {
            survivors(toasts.take(k)).push(toasts[k])
        } else {
            survivors(toasts.take(k))
        },
{
    reveal(Seq::filter);
    assert(toasts.take(k + 1).drop_last() =~= toasts.take(k));
}

/// Those who stay are alive. Where every toast is alive, all of them stay;
/// where none is, none stays.
pub proof fn lemma_survivors_all_or_none(toasts: Seq<Toast>)
    ensures
        forall|i: int| 0 <= i < survivors(toasts).len() ==> (#[trigger] survivors(toasts)[i]).alive(),
        (forall|i: int| 0 <= i < toasts.len() ==> (#[trigger] toasts[i]).alive()) ==> survivors(
            toasts,
        ) == toasts,
        (forall|i: int| 0 <= i < toasts.len() ==> !(#[trigger] toasts[i]).alive()) ==> survivors(
            toasts,
        ).len() == 0,
    decreases toasts.len(),
{
    reveal(Seq::filter);
    if toasts.len() > 0 {
        lemma_survivors_all_or_none(toasts.drop_last());
        assert(toasts.drop_last().push(toasts.last()) =~= toasts);
    }
}

impl<R> Default for Toasts<R> {
    fn default() -> (toasts: Toasts<R>)
        ensures
            toasts@ == ToastsView::<R>::standard(),
    {
        Toasts::new()
    }
}

} // verus!
