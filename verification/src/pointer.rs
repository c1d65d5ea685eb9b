use vstd::prelude::*;

verus! {

/// What the orbit camera remembers of the pointer: whether a drag is under
/// way and where the pointer was last seen during it, in client pixels.
pub struct DragTracker {
    pub dragging: bool,
    pub last_x: i32,
    pub last_y: i32,
}

/// How far the pointer moved, in client pixels, between two positions seen
/// during a drag.  The camera turns by these amounts.
pub struct Rotation {
    pub dx: i64,
    pub dy: i64,
}

/// The tracker after the button went down at `(x, y)`.
pub open spec fn press_spec(t: DragTracker, x: i32, y: i32) -> DragTracker {
    DragTracker { dragging: true, last_x: x, last_y: y }
}

/// The tracker after the button went up.
pub open spec fn release_spec(t: DragTracker) -> DragTracker {
    DragTracker { dragging: false, ..t }
}

/// The tracker after the pointer moved to `(x, y)`, and the rotation that the
/// move asks for: during a drag, the displacement since the last position
/// seen; otherwise none, and the tracker is left as it was.
pub open spec fn move_spec(t: DragTracker, x: i32, y: i32) -> (DragTracker, Option<(int, int)>) {
    if t.dragging {
        (
            DragTracker { dragging: true, last_x: x, last_y: y },
            Some((x - t.last_x, y - t.last_y)),
        )
    } else {
        (t, None)
    }
}

/// The sum of the rotations that the moves through `pts`, in order, ask for.
pub open spec fn total_rotation(t: DragTracker, pts: Seq<(i32, i32)>) -> (int, int)
    decreases pts.len(),
{
    if pts.len() == 0 {
        (0, 0)
    } else {
        let (next, r) = move_spec(t, pts[0].0, pts[0].1);
        let rest = total_rotation(next, pts.drop_first());
        match r {
            Some((dx, dy)) => (dx + rest.0, dy + rest.1),
            None => rest,
        }
    }
}

impl DragTracker {
    /// No drag under way; the last position is the origin.
    pub fn new() -> (t: DragTracker)
        ensures
            !t.dragging,
            t.last_x == 0,
            t.last_y == 0,
    {
        DragTracker { dragging: false, last_x: 0, last_y: 0 }
    }

    /// The button went down at `(x, y)`: a drag starts there.
    pub fn press(&mut self, x: i32, y: i32)
        ensures
            *final(self) == press_spec(*old(self), x, y),
    {
        self.dragging = true;
        self.last_x = x;
        self.last_y = y;
    }

    /// The button went up: the drag ends.
    pub fn release(&mut self)
        ensures
            *final(self) == release_spec(*old(self)),
    {
        self.dragging = false;
    }

    /// The pointer moved to `(x, y)`.  During a drag this returns the
    /// displacement since the last position seen and remembers `(x, y)`;
    /// otherwise it returns `None` and changes nothing.
    pub fn moved(&mut self, x: i32, y: i32) -> (rot: Option<Rotation>)
        ensures
            *final(self) == move_spec(*old(self), x, y).0,
            match move_spec(*old(self), x, y).1 {
                Some((dx, dy)) => rot matches Some(r) && r.dx == dx && r.dy == dy,
                None => rot is None,
            },
    {
        if self.dragging {
            let dx = x as i64 - self.last_x as i64;
            let dy = y as i64 - self.last_y as i64;
            self.last_x = x;
            self.last_y = y;
            Some(Rotation { dx, dy })
        } else {
            None
        }
    }
}

/// During a drag, the rotations asked for by a run of moves add up to the
/// displacement from the last position seen before the run to the run's
/// final position: the camera turns by the same total however finely the
/// pointer's path was sampled.
pub proof fn lemma_drag_rotation_telescopes(t: DragTracker, pts: Seq<(i32, i32)>)
    requires
        t.dragging,
        pts.len() > 0,
    ensures
        total_rotation(t, pts) == (pts.last().0 - t.last_x, pts.last().1 - t.last_y),
    decreases pts.len(),
{
    let next = move_spec(t, pts[0].0, pts[0].1).0;
    if pts.len() > 1 {
        lemma_drag_rotation_telescopes(next, pts.drop_first());
        assert(pts.drop_first().last() == pts.last());
    } else {
        assert(total_rotation(next, pts.drop_first()) == (0int, 0int));
    }
}

/// Without a drag under way, moves ask for no rotation and leave the tracker
/// as it was.
pub proof fn lemma_moves_without_drag_are_ignored(t: DragTracker, pts: Seq<(i32, i32)>)
    requires
        !t.dragging,
    ensures
        total_rotation(t, pts) == (0int, 0int),
    decreases pts.len(),
{
    if pts.len() > 0 {
        lemma_moves_without_drag_are_ignored(t, pts.drop_first());
    }
}

/// After the button goes up, moves ask for no rotation until it goes down
/// again.
pub proof fn lemma_release_stops_rotation(t: DragTracker, pts: Seq<(i32, i32)>)
    ensures
        total_rotation(release_spec(t), pts) == (0int, 0int),
{
    lemma_moves_without_drag_are_ignored(release_spec(t), pts);
}

/// A pointer event on the canvas: the button going down or up, or the
/// pointer moving, at client pixel coordinates.
pub enum PointerEvent {
    Press(i32, i32),
    Release,
    Move(i32, i32),
}

/// The tracker after one event, as `press`, `release` and `moved` leave it.
pub open spec fn step_spec(t: DragTracker, e: PointerEvent) -> DragTracker {
    match e {
        PointerEvent::Press(x, y) => press_spec(t, x, y),
        PointerEvent::Release => release_spec(t),
        PointerEvent::Move(x, y) => move_spec(t, x, y).0,
    }
}

/// The tracker after the events, in order.
pub open spec fn run_spec(t: DragTracker, events: Seq<PointerEvent>) -> DragTracker
    decreases events.len(),
{
    if events.len() == 0 {
        t
    } else {
        step_spec(run_spec(t, events.drop_last()), events.last())
    }
}

/// Whether the last press or release among the events was a press; `None`
/// where there was neither.
pub open spec fn last_press_or_release(events: Seq<PointerEvent>) -> Option<bool>
    decreases events.len(),
{
    if events.len() == 0 {
        None
    } else {
        match events.last() {
            PointerEvent::Press(..) => Some(true),
            PointerEvent::Release => Some(false),
            PointerEvent::Move(..) => last_press_or_release(events.drop_last()),
        }
    }
}

/// After any run of events, a drag is under way exactly when the last press
/// or release was a press; with neither in the run, the tracker's drag state
/// is unchanged.
pub proof fn lemma_dragging_follows_last_press_or_release(
    t: DragTracker,
    events: Seq<PointerEvent>,
)
    ensures
        run_spec(t, events).dragging == match last_press_or_release(events) {
            Some(pressed) => pressed,
            None => t.dragging,
        },
    decreases events.len(),
{
    if events.len() > 0 {
        lemma_dragging_follows_last_press_or_release(t, events.drop_last());
    }
}

/// From a fresh tracker, a drag is under way after a run of events exactly
/// when the run holds a press and the last press or release in it is a
/// press.
pub proof fn lemma_fresh_tracker_drags_after_last_press(events: Seq<PointerEvent>)
    ensures
        run_spec(DragTracker { dragging: false, last_x: 0, last_y: 0 }, events).dragging
            <==> last_press_or_release(events) == Some(true),
{
    lemma_dragging_follows_last_press_or_release(
        DragTracker { dragging: false, last_x: 0, last_y: 0 },
        events,
    );
}

/// A press remembers where the button went down; a release changes nothing
/// but the drag state.
pub proof fn lemma_press_and_release_steps(t: DragTracker, x: i32, y: i32)
    ensures
        step_spec(t, PointerEvent::Press(x, y)).dragging,
        step_spec(t, PointerEvent::Press(x, y)).last_x == x,
        step_spec(t, PointerEvent::Press(x, y)).last_y == y,
        !step_spec(t, PointerEvent::Release).dragging,
        step_spec(t, PointerEvent::Release).last_x == t.last_x,
        step_spec(t, PointerEvent::Release).last_y == t.last_y,
{
}

} // verus!
