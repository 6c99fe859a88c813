//! The gesture recognizer: it follows one gesture at a time and hands the
//! displacement of each completed gesture to the registered handler.

use vstd::prelude::*;
use crate::touch::{SwipeDelta, Touch, TouchPhase, TouchPoint};

verus! {

/// What is on record of the gesture in progress: where it started, or
/// `None` when no gesture is in progress.
pub type GestureState = Option<TouchPoint>;

/// The start point on record after `touch`, given the one on record before.
pub open spec fn advance(start: GestureState, touch: Touch) -> GestureState {
    match touch.phase {
        TouchPhase::Started => Some(touch.location),
        TouchPhase::Moved => start,
        TouchPhase::Ended => None,
        TouchPhase::Cancelled => None,
    }
}

/// The displacement that `touch` completes, if it completes a gesture. A
/// gesture whose start was never recorded is measured from the origin.
pub open spec fn completes(start: GestureState, touch: Touch) -> Option<SwipeDelta> {
    if touch.phase == TouchPhase::Ended {
        Some(
            SwipeDelta::spanning(
                match start {
                    Some(p) => p,
                    None => TouchPoint::origin(),
                },
                touch.location,
            ),
        )
    } else {
        None
    }
}

/// What a recognizer holds, as its contracts see it.
pub struct HandlerState<F> {
    /// Where the gesture in progress started.
    pub start: GestureState,
    /// The handler that completed gestures are handed to.
    pub handler: Option<F>,
}

impl<F> HandlerState<F> {
    /// A recognizer with no gesture in progress and no handler.
    pub open spec fn empty() -> Self {
        HandlerState { start: None, handler: None }
    }

    /// The state after `callback` was registered.
    pub open spec fn with_handler(self, callback: F) -> Self {
        HandlerState { start: self.start, handler: Some(callback) }
    }

    /// The state after `touch` was consumed.
    pub open spec fn after(self, touch: Touch) -> Self {
        HandlerState { start: advance(self.start, touch), handler: self.handler }
    }

    /// The call that consuming `touch` makes: the handler that is called and
    /// the displacement it is called with. `None` where `touch` completes no
    /// gesture or no handler is registered.
    pub open spec fn call(self, touch: Touch) -> Option<(F, SwipeDelta)> {
        match (self.handler, completes(self.start, touch)) {
            (Some(h), Some(d)) => Some((h, d)),
            _ => None,
        }
    }

    /// Whether the call that consuming `touch` makes, if it makes one, meets
    /// the precondition of the handler.
    pub open spec fn accepts<R>(self, touch: Touch) -> bool where F: Fn(i64, i64) -> R {
        match self.call(touch) {
            Some((h, d)) => h.requires((d.dx, d.dy)),
            None => true,
        }
    }
}

/// Follows one gesture at a time. `F` is the type of the handler, which
/// takes the two coordinates of a displacement.
pub struct InputHandler<F> {
    /// Last start event
    event: GestureState,
    handler: Option<F>,
}

impl<F> View for InputHandler<F> {
    type V = HandlerState<F>;

    closed spec fn view(&self) -> HandlerState<F> {
        HandlerState { start: self.event, handler: self.handler }
    }
}

impl<F> InputHandler<F> {
    /// A recognizer with no gesture in progress and no handler.
    pub fn new() -> (fresh: Self)
        ensures
            fresh@ == HandlerState::<F>::empty(),
    {
        InputHandler { event: None, handler: None }
    }

    /// Registers `callback` as the handler, in place of any registered
    /// before. The gesture in progress is kept.
    pub fn register_handler(&mut self, callback: F)
        ensures
            final(self)@ == old(self)@.with_handler(callback),
    {
        self.handler = Some(callback);
    }

    /// Consumes one touch sample. A `Started` sample records its location as
    /// the start of a gesture, replacing any start on record; a `Moved`
    /// sample changes nothing; `Ended` and `Cancelled` clear the record.
    /// An `Ended` sample also completes a gesture: where a handler is
    /// registered it is called once, with the displacement from the recorded
    /// start (or the origin) to the sample, and its answer is returned.
    ///
    /// The handler must accept that displacement; a handler without a
    /// precondition accepts every one.
    pub fn add_event<R>(&mut self, touch: Touch) -> (answer: Option<R>) where F: Fn(i64, i64) -> R
        requires
            old(self)@.accepts(touch),
        ensures
            final(self)@ == old(self)@.after(touch),
            match old(self)@.call(touch) {
                Some((h, d)) => answer matches Some(r) && h.ensures((d.dx, d.dy), r),
                None => answer is None,
            },
    {
        match touch.phase {
            TouchPhase::Started => {
                self.event = Some(touch.location);
                None
            },
            TouchPhase::Moved => None,
            TouchPhase::Ended => {
                let start = match self.event {
                    Some(p) => p,
                    None => TouchPoint::new(0, 0),
                };
                self.event = None;
                let delta = SwipeDelta::between(start, touch.location);
                match &self.handler {
                    Some(handler) => Some(handler(delta.dx, delta.dy)),
                    None => None,
                }
            },
            TouchPhase::Cancelled => {
                self.event = None;
                None
            },
        }
    }
}

/// The start point on record after all of `touches`, consumed in order.
pub open spec fn advance_all(start: GestureState, touches: Seq<Touch>) -> GestureState
    decreases touches.len(),
{
    if touches.len() == 0 {
        start
    } else {
        advance(advance_all(start, touches.drop_last()), touches.last())
    }
}

/// The displacements that `touches` complete, in the order in which the
/// handler is called with them.
pub open spec fn deltas(start: GestureState, touches: Seq<Touch>) -> Seq<SwipeDelta>
    decreases touches.len(),
{
    if touches.len() == 0 {
        Seq::empty()
    } else {
        let earlier = touches.drop_last();
        match completes(advance_all(start, earlier), touches.last()) {
            Some(d) => deltas(start, earlier).push(d),
            None => deltas(start, earlier),
        }
    }
}

/// Whether every sample of `touches` is a `Moved` sample.
pub open spec fn all_moved(touches: Seq<Touch>) -> bool {
    forall|i: int| 0 <= i < touches.len() ==> (#[trigger] touches[i]).phase == TouchPhase::Moved
}

/// Whether no sample of `touches` is a `Started` sample.
pub open spec fn none_started(touches: Seq<Touch>) -> bool {
    forall|i: int| 0 <= i < touches.len() ==> (#[trigger] touches[i]).phase != TouchPhase::Started
}

proof fn lemma_one_more(start: GestureState, touches: Seq<Touch>, touch: Touch)
    ensures
        advance_all(start, touches.push(touch)) == advance(advance_all(start, touches), touch),
        deltas(start, touches.push(touch)) == match completes(advance_all(start, touches), touch) {
            Some(d) => deltas(start, touches).push(d),
            None => deltas(start, touches),
        },
{
    assert(touches.push(touch).drop_last() =~= touches);
}

proof fn lemma_moves_appended(start: GestureState, head: Seq<Touch>, moves: Seq<Touch>)
    requires
        all_moved(moves),
    ensures
        advance_all(start, head + moves) == advance_all(start, head),
        deltas(start, head + moves) == deltas(start, head),
    decreases moves.len(),
{
    if moves.len() == 0 {
        assert(head + moves =~= head);
    } else {
        let fewer = moves.drop_last();
        assert(head + moves =~= (head + fewer).push(moves.last()));
        lemma_moves_appended(start, head, fewer);
        lemma_one_more(start, head + fewer, moves.last());
    }
}

/// A `Moved` sample never changes the recorded start point and never
/// completes a gesture, so no handler is called for it.
pub proof fn lemma_moved_is_ignored<F>(state: HandlerState<F>, touch: Touch)
    requires
        touch.phase == TouchPhase::Moved,
    ensures
        state.after(touch) == state,
        completes(state.start, touch) is None,
        state.call(touch) is None,
{
}

/// An `Ended` sample calls the registered handler with the displacement
/// from the recorded start to the sample: the end point minus the start
/// point, coordinate by coordinate.
pub proof fn lemma_end_calls_with_difference<F>(
    state: HandlerState<F>,
    handler: F,
    from: TouchPoint,
    to: TouchPoint,
)
    requires
        state.handler == Some(handler),
        state.start == Some(from),
    ensures
        ({
            let touch = Touch { phase: TouchPhase::Ended, location: to };
            &&& state.call(touch) == Some((handler, SwipeDelta::spanning(from, to)))
            &&& SwipeDelta::spanning(from, to).dx == to.x - from.x
            &&& SwipeDelta::spanning(from, to).dy == to.y - from.y
            &&& state.after(touch).start is None
        }),
{
}

/// Any run of `Moved` samples leaves the recorded start point as it was and
/// completes no gesture.
pub proof fn lemma_moves_are_ignored(start: GestureState, moves: Seq<Touch>)
    requires
        all_moved(moves),
    ensures
        advance_all(start, moves) == start,
        deltas(start, moves) == Seq::<SwipeDelta>::empty(),
{
    lemma_moves_appended(start, Seq::empty(), moves);
    assert(Seq::<Touch>::empty() + moves =~= moves);
}

/// A gesture that starts at `from` and, after any number of `Moved` samples,
/// ends at `to` completes exactly one displacement: `to` minus `from` in each
/// coordinate. Whatever start was on record before is of no account, and
/// none is on record afterwards.
pub proof fn lemma_gesture_spans_start_to_end(
    start: GestureState,
    from: TouchPoint,
    moves: Seq<Touch>,
    to: TouchPoint,
)
    requires
        all_moved(moves),
    ensures
        ({
            let touches = seq![(Touch { phase: TouchPhase::Started, location: from })] + moves
                + seq![(Touch { phase: TouchPhase::Ended, location: to })];
            &&& deltas(start, touches) == seq![SwipeDelta::spanning(from, to)]
            &&& deltas(start, touches)[0].dx == to.x - from.x
            &&& deltas(start, touches)[0].dy == to.y - from.y
            &&& advance_all(start, touches) is None
        }),
{
    let first = Touch { phase: TouchPhase::Started, location: from };
    let last = Touch { phase: TouchPhase::Ended, location: to };
    lemma_one_more(start, Seq::empty(), first);
    assert(Seq::<Touch>::empty().push(first) =~= seq![first]);
    lemma_moves_appended(start, seq![first], moves);
    lemma_one_more(start, seq![first] + moves, last);
    assert((seq![first] + moves).push(last) =~= seq![first] + moves + seq![last]);
}

/// A `Cancelled` sample after the start of a gesture ends it without a
/// displacement: the handler is not called for that gesture, and no start
/// stays on record.
pub proof fn lemma_cancel_suppresses_gesture(
    start: GestureState,
    from: TouchPoint,
    moves: Seq<Touch>,
    at: TouchPoint,
)
    requires
        all_moved(moves),
    ensures
        ({
            let touches = seq![(Touch { phase: TouchPhase::Started, location: from })] + moves
                + seq![(Touch { phase: TouchPhase::Cancelled, location: at })];
            &&& deltas(start, touches) == Seq::<SwipeDelta>::empty()
            &&& advance_all(start, touches) is None
        }),
{
    let first = Touch { phase: TouchPhase::Started, location: from };
    let last = Touch { phase: TouchPhase::Cancelled, location: at };
    lemma_one_more(start, Seq::empty(), first);
    assert(Seq::<Touch>::empty().push(first) =~= seq![first]);
    lemma_moves_appended(start, seq![first], moves);
    lemma_one_more(start, seq![first] + moves, last);
    assert((seq![first] + moves).push(last) =~= seq![first] + moves + seq![last]);
}

/// A second `Started` sample before the gesture ends discards the first
/// start point: the displacement is measured from the second.
pub proof fn lemma_restart_discards_first_start(
    start: GestureState,
    first_from: TouchPoint,
    first_moves: Seq<Touch>,
    from: TouchPoint,
    moves: Seq<Touch>,
    to: TouchPoint,
)
    requires
        all_moved(first_moves),
        all_moved(moves),
    ensures
        ({
            let touches = seq![(Touch { phase: TouchPhase::Started, location: first_from })]
                + first_moves + seq![(Touch { phase: TouchPhase::Started, location: from })]
                + moves + seq![(Touch { phase: TouchPhase::Ended, location: to })];
            deltas(start, touches) == seq![SwipeDelta::spanning(from, to)]
        }),
{
    let first = Touch { phase: TouchPhase::Started, location: first_from };
    let second = Touch { phase: TouchPhase::Started, location: from };
    let last = Touch { phase: TouchPhase::Ended, location: to };
    lemma_one_more(start, Seq::empty(), first);
    assert(Seq::<Touch>::empty().push(first) =~= seq![first]);
    lemma_moves_appended(start, seq![first], first_moves);
    let head = seq![first] + first_moves;
    lemma_one_more(start, head, second);
    assert(head.push(second) =~= head + seq![second]);
    lemma_moves_appended(start, head + seq![second], moves);
    lemma_one_more(start, head + seq![second] + moves, last);
    assert((head + seq![second] + moves).push(last) =~= head + seq![second] + moves + seq![last]);
}

/// While no gesture has started, none is on record; an `Ended` sample then
/// completes a displacement measured from the origin, which is the
/// sample's own location.
pub proof fn lemma_end_without_start(touches: Seq<Touch>, to: TouchPoint)
    requires
        none_started(touches),
    ensures
        advance_all(None, touches) is None,
        completes(
            advance_all(None, touches),
            (Touch { phase: TouchPhase::Ended, location: to }),
        ) == Some(SwipeDelta { dx: to.x as i64, dy: to.y as i64 }),
    decreases touches.len(),
{
    if touches.len() > 0 {
        lemma_end_without_start(touches.drop_last(), to);
    }
}

/// Registering a handler replaces the one registered before: after two
/// registrations the state is as if only the second had been made, so
/// every call that a later sample makes is a call of the second handler.
pub proof fn lemma_last_registration_wins<F>(
    state: HandlerState<F>,
    first: F,
    second: F,
    touch: Touch,
)
    ensures
        state.with_handler(first).with_handler(second) == state.with_handler(second),
        state.with_handler(first).with_handler(second).after(touch).handler == Some(second),
        match state.with_handler(first).with_handler(second).call(touch) {
            Some((called, d)) => called == second && completes(state.start, touch) == Some(d),
            None => completes(state.start, touch) is None,
        },
{
}

} // verus!
