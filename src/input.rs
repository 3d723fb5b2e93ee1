use vstd::prelude::*;

verus! {

/// A subtraction to be carried out on cursor coordinates:
/// `minuend - subtrahend`.
#[derive(Clone, Copy, Debug, PartialEq, Eq)]
pub struct Difference<P> {
    pub minuend: P,
    pub subtrahend: P,
}

/// The mouse offsets of one cursor event, as differences of raw positions.
///
/// `x` is `x - last_x`; `y` is `last_y - y`, inverted because screen `y`
/// grows downwards while the pitch grows when looking up.
#[derive(Clone, Copy, Debug, PartialEq, Eq)]
pub struct CursorOffsets<P> {
    pub x: Difference<P>,
    pub y: Difference<P>,
}

/// Remembers the last cursor position so that successive absolute positions
/// become relative offsets. While `first_mouse` is set, the next event only
/// seeds the remembered position.
#[derive(Clone, Copy, Debug, PartialEq, Eq)]
pub struct CursorTracker<P> {
    pub first_mouse: bool,
    pub last_x: P,
    pub last_y: P,
}

/// The offsets of a cursor event at `(x, y)` for a tracker in state `t`.
pub open spec fn offsets_spec<P>(t: CursorTracker<P>, x: P, y: P) -> CursorOffsets<P> {
    let (lx, ly) = if t.first_mouse { (x, y) } else { (t.last_x, t.last_y) };
    CursorOffsets {
        x: Difference { minuend: x, subtrahend: lx },
        y: Difference { minuend: ly, subtrahend: y },
    }
}

/// The tracker after a cursor event at `(x, y)`.
pub open spec fn tracked_spec<P>(t: CursorTracker<P>, x: P, y: P) -> CursorTracker<P> {
    CursorTracker { first_mouse: false, last_x: x, last_y: y }
}

/// A difference of a value with itself.
pub open spec fn is_zero_difference<P>(d: Difference<P>) -> bool {
    d.minuend == d.subtrahend
}

impl<P: Copy> CursorTracker<P> {
    /// A tracker that waits for its first event, remembering `(last_x, last_y)`
    /// until then.
    pub fn new(last_x: P, last_y: P) -> (r: Self)
        ensures
            r.first_mouse,
            r.last_x == last_x,
            r.last_y == last_y,
    {
        CursorTracker { first_mouse: true, last_x, last_y }
    }

    /// Feeds one cursor position and returns the offsets to hand to the camera.
    /// The first event after `first_mouse` seeds the remembered position, so
    /// both its offsets are zero.
    pub fn track(&mut self, x: P, y: P) -> (r: CursorOffsets<P>)
        ensures
            r == offsets_spec(*old(self), x, y),
            *final(self) == tracked_spec(*old(self), x, y),
    {
        if self.first_mouse {
            self.last_x = x;
            self.last_y = y;
            self.first_mouse = false;
        }
        let r = CursorOffsets {
            x: Difference { minuend: x, subtrahend: self.last_x },
            y: Difference { minuend: self.last_y, subtrahend: y },
        };
        self.last_x = x;
        self.last_y = y;
        r
    }
}

/// The window events the camera reacts to, with their coordinates.
#[derive(Clone, Copy, Debug, PartialEq, Eq)]
pub enum InputEvent<P> {
    /// The cursor moved to this window position.
    CursorPos(P, P),
    /// The wheel scrolled by these horizontal and vertical amounts.
    Scroll(P, P),
    /// Any other event.
    Other,
}

/// What the camera is to do with one event.
#[derive(Clone, Copy, Debug, PartialEq, Eq)]
pub enum MouseAction<P> {
    /// Rotate by these offsets (scaled by the camera's sensitivity).
    Look(CursorOffsets<P>),
    /// Zoom by this vertical scroll amount.
    Zoom(P),
    /// Nothing.
    Ignore,
}

/// The action for `event` and the tracker afterwards.
pub open spec fn route_spec<P>(t: CursorTracker<P>, event: InputEvent<P>) -> (
    CursorTracker<P>,
    MouseAction<P>,
) {
    match event {
        InputEvent::CursorPos(x, y) => (tracked_spec(t, x, y), MouseAction::Look(offsets_spec(t, x, y))),
        InputEvent::Scroll(_, dy) => (t, MouseAction::Zoom(dy)),
        InputEvent::Other => (t, MouseAction::Ignore),
    }
}

/// Routes one window event: cursor motion goes through the tracker and
/// becomes a look action, a scroll forwards only its vertical amount, and
/// everything else is ignored.
pub fn route_mouse_event<P: Copy>(tracker: &mut CursorTracker<P>, event: InputEvent<P>) -> (r:
    MouseAction<P>)
    ensures
        (*final(tracker), r) == route_spec(*old(tracker), event),
{
    match event {
        InputEvent::CursorPos(x, y) => MouseAction::Look(tracker.track(x, y)),
        InputEvent::Scroll(_, dy) => MouseAction::Zoom(dy),
        InputEvent::Other => MouseAction::Ignore,
    }
}

/// The first cursor event after `first_mouse` is set only seeds the tracker:
/// both of its offsets are zero. The second event's offsets are the
/// differences between the two raw positions, with `y` inverted.
pub proof fn lemma_first_event_suppressed<P>(t: CursorTracker<P>, x1: P, y1: P, x2: P, y2: P)
    requires
        t.first_mouse,
    ensures
        is_zero_difference(offsets_spec(t, x1, y1).x),
        is_zero_difference(offsets_spec(t, x1, y1).y),
        offsets_spec(tracked_spec(t, x1, y1), x2, y2) == (CursorOffsets {
            x: Difference { minuend: x2, subtrahend: x1 },
            y: Difference { minuend: y1, subtrahend: y2 },
        }),
        !tracked_spec(t, x1, y1).first_mouse,
{
}

/// Once seeded, every cursor event's offsets are taken against the position
/// of the event before it.
pub proof fn lemma_offsets_follow_last_event<P>(t: CursorTracker<P>, x: P, y: P)
    requires
        !t.first_mouse,
    ensures
        offsets_spec(t, x, y) == (CursorOffsets {
            x: Difference { minuend: x, subtrahend: t.last_x },
            y: Difference { minuend: t.last_y, subtrahend: y },
        }),
{
}

} // verus!
