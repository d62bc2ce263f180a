//! Bounded handoff from native callback threads to the session.
//!
//! Absolute motion and scroll are replaceable. Relative motion is summed, so
//! that backpressure never turns queued physical movement into another place.
//! Key and button events are never lost without an explicit failure.

use std::collections::VecDeque;
use vstd::prelude::*;
use crate::input::{is_replaceable, InputEvent, PointerDelta};

verus! {

pub const INPUT_CAPACITY: usize = 128;

#[derive(Clone, Copy, Debug, PartialEq, Eq, Structural)]
pub enum PlatformSafetyEvent {
    LocalLocked,
    LocalSleeping,
    CaptureFailed,
}

#[derive(Clone, Copy, Debug, PartialEq, Eq, Structural)]
pub enum NativeInputBridgeError {
    ReliableCapacityExhausted,
    ReplaceableCapacityExhausted,
}

/// Events that wait for the session, oldest first.
pub struct InputBuffer {
    events: VecDeque<InputEvent>,
}

/// What two relative motions make together.
#[derive(Clone, Copy, Debug, PartialEq, Eq)]
pub enum RelativeMerge {
    NotRelative,
    Merged(InputEvent),
    Cancelled,
    Overflow,
}

/// Replaceable, and of no lasting effect when it is dropped.
pub open spec fn lossy(event: InputEvent) -> bool {
    event is PointerMotion || event is Scroll
}

fn is_lossy_replaceable(event: InputEvent) -> (answer: bool)
    ensures
        answer == lossy(event),
{
    match event {
        InputEvent::PointerMotion { .. } | InputEvent::Scroll { .. } => true,
        _ => false,
    }
}

/// Two replaceable events of one kind.
pub open spec fn same_kind(left: InputEvent, right: InputEvent) -> bool {
    ||| left is PointerMotion && right is PointerMotion
    ||| left is PointerDelta && right is PointerDelta
    ||| left is Scroll && right is Scroll
}

fn same_replaceable_kind(left: InputEvent, right: InputEvent) -> (answer: bool)
    ensures
        answer == same_kind(left, right),
{
    match (left, right) {
        (InputEvent::PointerMotion { .. }, InputEvent::PointerMotion { .. }) => true,
        (InputEvent::PointerDelta { .. }, InputEvent::PointerDelta { .. }) => true,
        (InputEvent::Scroll { .. }, InputEvent::Scroll { .. }) => true,
        _ => false,
    }
}

/// The sum of two relative motions, where both coordinates fit.
pub open spec fn delta_sum(left: InputEvent, right: InputEvent) -> Option<PointerDelta> {
    match (left, right) {
        (InputEvent::PointerDelta { delta: a }, InputEvent::PointerDelta { delta: b }) => {
            let horizontal = a.horizontal + b.horizontal;
            let vertical = a.vertical + b.vertical;
            if i32::MIN <= horizontal <= i32::MAX && i32::MIN <= vertical <= i32::MAX {
                Some(PointerDelta { horizontal: horizontal as i32, vertical: vertical as i32 })
            } else {
                None
            }
        },
        _ => None,
    }
}

/// What becomes of two queued events of one kind. `admitted` says whether the
/// input vocabulary admits their sum.
pub open spec fn merge_result(left: InputEvent, right: InputEvent, admitted: bool) -> RelativeMerge {
    if !(left is PointerDelta && right is PointerDelta) {
        RelativeMerge::NotRelative
    } else {
        match delta_sum(left, right) {
            None => RelativeMerge::Overflow,
            Some(delta) => if delta.horizontal == 0 && delta.vertical == 0 {
                RelativeMerge::Cancelled
            } else if admitted {
                RelativeMerge::Merged(InputEvent::PointerDelta { delta })
            } else {
                RelativeMerge::Overflow
            },
        }
    }
}

/// Adds two relative motions without truncating the sum.
pub fn merge_relative_delta(left: InputEvent, right: InputEvent, admitted: bool) -> (merge:
    RelativeMerge)
    ensures
        merge == merge_result(left, right, admitted),
{
    match (left, right) {
        (InputEvent::PointerDelta { delta: a }, InputEvent::PointerDelta { delta: b }) => {
            let horizontal: i32 = match a.horizontal.checked_add(b.horizontal) {
                Some(sum) => sum,
                None => {
                    return RelativeMerge::Overflow;
                },
            };
            let vertical: i32 = match a.vertical.checked_add(b.vertical) {
                Some(sum) => sum,
                None => {
                    return RelativeMerge::Overflow;
                },
            };
            if horizontal == 0 && vertical == 0 {
                RelativeMerge::Cancelled
            } else if admitted {
                RelativeMerge::Merged(
                    InputEvent::PointerDelta { delta: PointerDelta { horizontal, vertical } },
                )
            } else {
                RelativeMerge::Overflow
            }
        },
        _ => RelativeMerge::NotRelative,
    }
}

/// The place of the last queued event of the kind of `event`, or -1.
pub open spec fn last_same_kind(events: Seq<InputEvent>, event: InputEvent) -> int
    decreases events.len(),
{
    if events.len() == 0 {
        -1
    } else if same_kind(events.last(), event) {
        events.len() - 1
    } else {
        last_same_kind(events.drop_last(), event)
    }
}

/// The place of the first lossy event at or after `from`; the end, when there is none.
pub open spec fn first_lossy(events: Seq<InputEvent>, from: int) -> int
    decreases events.len() - from,
{
    if from >= events.len() || lossy(events[from]) {
        from
    } else {
        first_lossy(events, from + 1)
    }
}

/// The same for a replaceable event.
pub open spec fn first_replaceable(events: Seq<InputEvent>, from: int) -> int
    decreases events.len() - from,
{
    if from >= events.len() || events[from].replaceable() {
        from
    } else {
        first_replaceable(events, from + 1)
    }
}

/// Makes room by dropping a lossy event, if there is one, and appends.
pub open spec fn append_after_lossy(events: Seq<InputEvent>, event: InputEvent) -> Result<
    Seq<InputEvent>,
    NativeInputBridgeError,
> {
    if events.len() < INPUT_CAPACITY {
        Ok(events.push(event))
    } else if first_lossy(events, 0) < events.len() {
        Ok(events.remove(first_lossy(events, 0)).push(event))
    } else {
        Err(NativeInputBridgeError::ReplaceableCapacityExhausted)
    }
}

/// The queue after `event` was sent.
pub open spec fn queue_after(events: Seq<InputEvent>, event: InputEvent, admitted: bool) -> Result<
    Seq<InputEvent>,
    NativeInputBridgeError,
> {
    let index = last_same_kind(events, event);
    if !event.replaceable() {
        if events.len() < INPUT_CAPACITY {
            Ok(events.push(event))
        } else if first_replaceable(events, 0) < events.len() {
            Ok(events.remove(first_replaceable(events, 0)).push(event))
        } else {
            Err(NativeInputBridgeError::ReliableCapacityExhausted)
        }
    } else if index < 0 {
        append_after_lossy(events, event)
    } else {
        match merge_result(events[index], event, admitted) {
            RelativeMerge::Merged(merged) => Ok(events.update(index, merged)),
            RelativeMerge::Cancelled => Ok(events.remove(index)),
            RelativeMerge::Overflow => append_after_lossy(events, event),
            RelativeMerge::NotRelative => Ok(events.remove(index).push(event)),
        }
    }
}

proof fn lemma_last_same_kind(events: Seq<InputEvent>, event: InputEvent, from: int)
    requires
        0 <= from <= events.len(),
        forall|i: int| from <= i < events.len() ==> !same_kind(#[trigger] events[i], event),
    ensures
        last_same_kind(events, event) == last_same_kind(events.take(from), event),
    decreases events.len(),
{
    if from == events.len() {
        assert(events.take(from) =~= events);
    } else {
        assert(events.drop_last().take(from) =~= events.take(from));
        assert forall|i: int| from <= i < events.drop_last().len() implies !same_kind(
            #[trigger] events.drop_last()[i],
            event,
        ) by {
            assert(!same_kind(events[i], event));
        }
        lemma_last_same_kind(events.drop_last(), event, from);
    }
}

impl View for InputBuffer {
    type V = Seq<InputEvent>;

    closed spec fn view(&self) -> Seq<InputEvent> {
        self.events@
    }
}

impl InputBuffer {
    /// The buffer is within its capacity.
    pub open spec fn wf(&self) -> bool {
        self@.len() <= INPUT_CAPACITY
    }

    pub fn new() -> (buffer: InputBuffer)
        ensures
            buffer.wf(),
            buffer@ == Seq::<InputEvent>::empty(),
    {
        InputBuffer { events: VecDeque::new() }
    }

    fn position_last_same_kind(&self, event: InputEvent) -> (found: Option<usize>)
        ensures
            match found {
                Some(index) => index == last_same_kind(self@, event) && index < self@.len()
                    && same_kind(self@[index as int], event),
                None => last_same_kind(self@, event) == -1,
            },
    {
        let mut left: usize = self.events.len();
        while left > 0
            invariant
                left <= self@.len(),
                self@ == self.events@,
                forall|i: int| left <= i < self@.len() ==> !same_kind(#[trigger] self@[i], event),
            decreases left,
        {
            if same_replaceable_kind(self.events[left - 1], event) {
                proof {
                    lemma_last_same_kind(self@, event, left as int);
                    assert(self@.take(left as int).last() == self@[left - 1]);
                }
                return Some(left - 1);
            }
            left = left - 1;
        }
        proof {
            lemma_last_same_kind(self@, event, 0);
        }
        None
    }

    fn position_first_lossy(&self) -> (found: usize)
        ensures
            found == first_lossy(self@, 0),
            found <= self@.len(),
    {
        let mut at: usize = 0;
        while at < self.events.len() && !is_lossy_replaceable(self.events[at])
            invariant
                at <= self@.len(),
                self@ == self.events@,
                first_lossy(self@, 0) == first_lossy(self@, at as int),
            decreases self@.len() - at,
        {
            at = at + 1;
        }
        at
    }

    fn position_first_replaceable(&self) -> (found: usize)
        ensures
            found == first_replaceable(self@, 0),
            found <= self@.len(),
    {
        let mut at: usize = 0;
        while at < self.events.len() && !is_replaceable(self.events[at])
            invariant
                at <= self@.len(),
                self@ == self.events@,
                first_replaceable(self@, 0) == first_replaceable(self@, at as int),
            decreases self@.len() - at,
        {
            at = at + 1;
        }
        at
    }

    /// The sum that sending `event` would put into the queue, for the input
    /// vocabulary to admit or refuse.
    pub fn merge_candidate(&self, event: InputEvent) -> (sum: Option<PointerDelta>)
        ensures
            sum == if last_same_kind(self@, event) >= 0 {
                delta_sum(self@[last_same_kind(self@, event)], event)
            } else {
                None
            },
    {
        match self.position_last_same_kind(event) {
            Some(index) => match merge_relative_delta(self.events[index], event, true) {
                RelativeMerge::Merged(InputEvent::PointerDelta { delta }) => Some(delta),
                RelativeMerge::Cancelled => Some(PointerDelta { horizontal: 0, vertical: 0 }),
                _ => None,
            },
            None => None,
        }
    }

    /// Enqueues a physical event without ever evicting a key or button event.
    /// `admitted` is the vocabulary's answer on `merge_candidate`; where that is
    /// `None`, it does not matter.
    pub fn send(&mut self, event: InputEvent, admitted: bool) -> (sent: Result<
        (),
        NativeInputBridgeError,
    >)
        requires
            old(self).wf(),
        ensures
            final(self).wf(),
            match (sent, queue_after(old(self)@, event, admitted)) {
                (Ok(_), Ok(events)) => final(self)@ == events,
                (Err(error), Err(expected)) => error == expected && final(self)@ == old(self)@,
                _ => false,
            },
    {
        if is_replaceable(event) {
            match self.position_last_same_kind(event) {
                Some(index) => match merge_relative_delta(self.events[index], event, admitted) {
                    RelativeMerge::Merged(merged) => {
                        let ghost before = self.events@;
                        self.events.remove(index);
                        self.events.insert(index, merged);
                        assert(self.events@ =~= before.update(index as int, merged));
                        return Ok(());
                    },
                    RelativeMerge::Cancelled => {
                        self.events.remove(index);
                        return Ok(());
                    },
                    RelativeMerge::Overflow => {
                        if self.events.len() == INPUT_CAPACITY {
                            let eviction: usize = self.position_first_lossy();
                            if eviction == self.events.len() {
                                return Err(NativeInputBridgeError::ReplaceableCapacityExhausted);
                            }
                            self.events.remove(eviction);
                        }
                    },
                    RelativeMerge::NotRelative => {
                        self.events.remove(index);
                    },
                },
                None => {
                    if self.events.len() == INPUT_CAPACITY {
                        let eviction: usize = self.position_first_lossy();
                        if eviction == self.events.len() {
                            return Err(NativeInputBridgeError::ReplaceableCapacityExhausted);
                        }
                        self.events.remove(eviction);
                    }
                },
            }
        } else if self.events.len() == INPUT_CAPACITY {
            let eviction: usize = self.position_first_replaceable();
            if eviction == self.events.len() {
                return Err(NativeInputBridgeError::ReliableCapacityExhausted);
            }
            self.events.remove(eviction);
        }
        self.events.push_back(event);
        Ok(())
    }

    /// Takes the oldest event.
    pub fn receive(&mut self) -> (event: Option<InputEvent>)
        requires
            old(self).wf(),
        ensures
            final(self).wf(),
            match event {
                Some(oldest) => old(self)@.len() > 0 && oldest == old(self)@[0] && final(self)@
                    == old(self)@.drop_first(),
                None => old(self)@.len() == 0 && final(self)@ == old(self)@,
            },
    {
        let ghost before = self.events@;
        let event = self.events.pop_front();
        assert(before.len() > 0 ==> self.events@ =~= before.drop_first());
        event
    }

    /// Takes everything that is queued, oldest first.
    pub fn drain_pending(&mut self) -> (events: Vec<InputEvent>)
        requires
            old(self).wf(),
        ensures
            final(self).wf(),
            events@ == old(self)@,
            final(self)@.len() == 0,
    {
        let ghost all = self.events@;
        let mut events: Vec<InputEvent> = Vec::new();
        while self.events.len() > 0
            invariant
                events@ + self.events@ == all,
            decreases self.events@.len(),
        {
            let ghost rest = self.events@;
            match self.events.pop_front() {
                Some(event) => {
                    let ghost taken = events@;
                    events.push(event);
                    assert(taken + rest =~= taken.push(event) + rest.subrange(
                        1,
                        rest.len() as int,
                    ));
                },
                None => {},
            }
        }
        assert(events@ =~= all);
        events
    }
}

/// The events of a queue that may not be lost.
pub open spec fn reliable_events(events: Seq<InputEvent>) -> Seq<InputEvent>
    decreases events.len(),
{
    if events.len() == 0 {
        Seq::empty()
    } else if events.last().replaceable() {
        reliable_events(events.drop_last())
    } else {
        reliable_events(events.drop_last()).push(events.last())
    }
}

proof fn lemma_reliable_remove(events: Seq<InputEvent>, at: int)
    requires
        0 <= at < events.len(),
        events[at].replaceable(),
    ensures
        reliable_events(events.remove(at)) == reliable_events(events),
    decreases events.len(),
{
    if at == events.len() - 1 {
        assert(events.remove(at) =~= events.drop_last());
    } else {
        assert(events.remove(at).drop_last() =~= events.drop_last().remove(at));
        assert(events.remove(at).last() == events.last());
        lemma_reliable_remove(events.drop_last(), at);
    }
}

proof fn lemma_reliable_update(events: Seq<InputEvent>, at: int, event: InputEvent)
    requires
        0 <= at < events.len(),
        events[at].replaceable(),
        event.replaceable(),
    ensures
        reliable_events(events.update(at, event)) == reliable_events(events),
    decreases events.len(),
{
    if at == events.len() - 1 {
        assert(events.update(at, event).drop_last() =~= events.drop_last());
    } else {
        assert(events.update(at, event).drop_last() =~= events.drop_last().update(at, event));
        lemma_reliable_update(events.drop_last(), at, event);
    }
}

proof fn lemma_reliable_push(events: Seq<InputEvent>, event: InputEvent)
    ensures
        reliable_events(events.push(event)) == if event.replaceable() {
            reliable_events(events)
        } else {
            reliable_events(events).push(event)
        },
{
    assert(events.push(event).drop_last() =~= events);
}

proof fn lemma_first_lossy(events: Seq<InputEvent>, from: int)
    requires
        0 <= from <= events.len(),
    ensures
        from <= first_lossy(events, from) <= events.len(),
        first_lossy(events, from) < events.len() ==> lossy(events[first_lossy(events, from)]),
    decreases events.len() - from,
{
    if from < events.len() && !lossy(events[from]) {
        lemma_first_lossy(events, from + 1);
    }
}

proof fn lemma_first_replaceable(events: Seq<InputEvent>, from: int)
    requires
        0 <= from <= events.len(),
    ensures
        from <= first_replaceable(events, from) <= events.len(),
        first_replaceable(events, from) < events.len() ==> events[first_replaceable(
            events,
            from,
        )].replaceable(),
        first_replaceable(events, from) == events.len() ==> forall|i: int|
            from <= i < events.len() ==> !(#[trigger] events[i]).replaceable(),
    decreases events.len() - from,
{
    if from < events.len() && !events[from].replaceable() {
        lemma_first_replaceable(events, from + 1);
    }
}

proof fn lemma_last_same_kind_place(events: Seq<InputEvent>, event: InputEvent)
    ensures
        -1 <= last_same_kind(events, event) < events.len(),
        last_same_kind(events, event) >= 0 ==> same_kind(
            events[last_same_kind(events, event)],
            event,
        ),
    decreases events.len(),
{
    if events.len() > 0 && !same_kind(events.last(), event) {
        lemma_last_same_kind_place(events.drop_last(), event);
    }
}

/// Whatever is sent, the key and button events that were queued stay queued, in
/// their order, and a new one comes last.
pub proof fn law_reliable_input_is_never_evicted(
    events: Seq<InputEvent>,
    event: InputEvent,
    admitted: bool,
)
    requires
        events.len() <= INPUT_CAPACITY,
        queue_after(events, event, admitted) is Ok,
    ensures
        reliable_events(queue_after(events, event, admitted)->Ok_0) == if event.replaceable() {
            reliable_events(events)
        } else {
            reliable_events(events).push(event)
        },
{
    let index = last_same_kind(events, event);
    lemma_last_same_kind_place(events, event);
    lemma_first_lossy(events, 0);
    lemma_first_replaceable(events, 0);
    if index >= 0 {
        lemma_reliable_remove(events, index);
        lemma_reliable_push(events.remove(index), event);
        if let RelativeMerge::Merged(merged) = merge_result(events[index], event, admitted) {
            lemma_reliable_update(events, index, merged);
        }
    }
    if first_lossy(events, 0) < events.len() {
        lemma_reliable_remove(events, first_lossy(events, 0));
        lemma_reliable_push(events.remove(first_lossy(events, 0)), event);
    }
    if first_replaceable(events, 0) < events.len() {
        lemma_reliable_remove(events, first_replaceable(events, 0));
        lemma_reliable_push(events.remove(first_replaceable(events, 0)), event);
    }
    lemma_reliable_push(events, event);
}

/// A key or button event is refused only when the queue is full of such events.
pub proof fn law_reliable_input_fails_only_when_full_of_it(
    events: Seq<InputEvent>,
    event: InputEvent,
    admitted: bool,
)
    requires
        events.len() <= INPUT_CAPACITY,
        !event.replaceable(),
    ensures
        queue_after(events, event, admitted) is Err <==> events.len() == INPUT_CAPACITY && forall|
            i: int,
        |
            0 <= i < events.len() ==> !(#[trigger] events[i]).replaceable(),
{
    lemma_first_replaceable(events, 0);
}

/// How far an event moves the pointer, horizontally and vertically.
pub open spec fn motion_of(event: InputEvent) -> (int, int) {
    match event {
        InputEvent::PointerDelta { delta } => (delta.horizontal as int, delta.vertical as int),
        _ => (0, 0),
    }
}

/// How far the queued relative motions move the pointer together.
pub open spec fn total_motion(events: Seq<InputEvent>) -> (int, int)
    decreases events.len(),
{
    if events.len() == 0 {
        (0, 0)
    } else {
        let rest = total_motion(events.drop_last());
        let last = motion_of(events.last());
        (rest.0 + last.0, rest.1 + last.1)
    }
}

proof fn lemma_motion_push(events: Seq<InputEvent>, event: InputEvent)
    ensures
        total_motion(events.push(event)).0 == total_motion(events).0 + motion_of(event).0,
        total_motion(events.push(event)).1 == total_motion(events).1 + motion_of(event).1,
{
    assert(events.push(event).drop_last() =~= events);
}

proof fn lemma_motion_remove(events: Seq<InputEvent>, at: int)
    requires
        0 <= at < events.len(),
    ensures
        total_motion(events.remove(at)).0 == total_motion(events).0 - motion_of(events[at]).0,
        total_motion(events.remove(at)).1 == total_motion(events).1 - motion_of(events[at]).1,
    decreases events.len(),
{
    if at == events.len() - 1 {
        assert(events.remove(at) =~= events.drop_last());
    } else {
        assert(events.remove(at).drop_last() =~= events.drop_last().remove(at));
        assert(events.remove(at).last() == events.last());
        lemma_motion_remove(events.drop_last(), at);
    }
}

proof fn lemma_motion_update(events: Seq<InputEvent>, at: int, event: InputEvent)
    requires
        0 <= at < events.len(),
    ensures
        total_motion(events.update(at, event)).0 == total_motion(events).0 - motion_of(
            events[at],
        ).0 + motion_of(event).0,
        total_motion(events.update(at, event)).1 == total_motion(events).1 - motion_of(
            events[at],
        ).1 + motion_of(event).1,
    decreases events.len(),
{
    if at == events.len() - 1 {
        assert(events.update(at, event).drop_last() =~= events.drop_last());
    } else {
        assert(events.update(at, event).drop_last() =~= events.drop_last().update(at, event));
        lemma_motion_update(events.drop_last(), at, event);
    }
}

/// The motion that gives way to an event: that of the first replaceable event,
/// when the queue is full and a key or button event comes; else none.
pub open spec fn motion_given_up(events: Seq<InputEvent>, event: InputEvent) -> (int, int) {
    if !event.replaceable() && events.len() == INPUT_CAPACITY {
        motion_of(events[first_replaceable(events, 0)])
    } else {
        (0, 0)
    }
}

/// Relative motion is summed: what is queued moves the pointer as far as
/// everything that was queued and the new event together. Only to admit a key
/// or button event to a full queue may one queued motion be given up.
pub proof fn law_relative_motion_is_summed(
    events: Seq<InputEvent>,
    event: InputEvent,
    admitted: bool,
)
    requires
        events.len() <= INPUT_CAPACITY,
        queue_after(events, event, admitted) is Ok,
    ensures
        total_motion(queue_after(events, event, admitted)->Ok_0).0 == total_motion(events).0
            + motion_of(event).0 - motion_given_up(events, event).0,
        total_motion(queue_after(events, event, admitted)->Ok_0).1 == total_motion(events).1
            + motion_of(event).1 - motion_given_up(events, event).1,
{
    let index = last_same_kind(events, event);
    lemma_last_same_kind_place(events, event);
    lemma_first_lossy(events, 0);
    lemma_first_replaceable(events, 0);
    lemma_motion_push(events, event);
    if index >= 0 {
        lemma_motion_remove(events, index);
        lemma_motion_push(events.remove(index), event);
        if let RelativeMerge::Merged(merged) = merge_result(events[index], event, admitted) {
            lemma_motion_update(events, index, merged);
        }
    }
    if first_lossy(events, 0) < events.len() {
        lemma_motion_remove(events, first_lossy(events, 0));
        lemma_motion_push(events.remove(first_lossy(events, 0)), event);
    }
    if first_replaceable(events, 0) < events.len() {
        lemma_motion_remove(events, first_replaceable(events, 0));
        lemma_motion_push(events.remove(first_replaceable(events, 0)), event);
    }
}

proof fn lemma_last_same_kind_is_last(events: Seq<InputEvent>, event: InputEvent)
    ensures
        forall|i: int|
            last_same_kind(events, event) < i < events.len() ==> !same_kind(
                #[trigger] events[i],
                event,
            ),
    decreases events.len(),
{
    if events.len() > 0 && !same_kind(events.last(), event) {
        lemma_last_same_kind_place(events, event);
        lemma_last_same_kind_is_last(events.drop_last(), event);
        assert forall|i: int| last_same_kind(events, event) < i < events.len() implies !same_kind(
            #[trigger] events[i],
            event,
        ) by {
            if i < events.len() - 1 {
                assert(events.drop_last()[i] == events[i]);
            }
        }
    }
}

proof fn lemma_first_places(events: Seq<InputEvent>, from: int)
    requires
        0 <= from <= events.len(),
    ensures
        forall|i: int| from <= i < first_lossy(events, from) ==> !lossy(#[trigger] events[i]),
        forall|i: int|
            from <= i < first_replaceable(events, from) ==> !(#[trigger] events[i]).replaceable(),
    decreases events.len() - from,
{
    if from < events.len() {
        lemma_first_places(events, from + 1);
    }
}

/// Of the pointer's places and the scrolls only the newest counts: when one is
/// sent it comes last, and what was queued of its kind last is gone. Everything
/// else stays as it was.
pub proof fn law_newer_motion_takes_the_place_of_older(
    events: Seq<InputEvent>,
    event: InputEvent,
    admitted: bool,
    place: int,
)
    requires
        event is PointerMotion || event is Scroll,
        0 <= place < events.len(),
        event is PointerMotion ==> events[place] is PointerMotion,
        event is Scroll ==> events[place] is Scroll,
        forall|i: int|
            place < i < events.len() ==> (event is PointerMotion ==> !(#[trigger] events[i]
                is PointerMotion)) && (event is Scroll ==> !(events[i] is Scroll)),
    ensures
        queue_after(events, event, admitted) == Ok::<_, NativeInputBridgeError>(
            events.remove(place).push(event),
        ),
{
    lemma_last_same_kind_place(events, event);
    lemma_last_same_kind_is_last(events, event);
    let index = last_same_kind(events, event);
    assert(same_kind(events[place], event));
    assert(index >= place);
    assert(same_kind(events[index], event));
}

/// Whatever is sent and taken comes last, but for relative motion, which is
/// added to what is queued of it. A queue holds no more than its capacity.
pub proof fn law_sent_input_comes_last(events: Seq<InputEvent>, event: InputEvent, admitted: bool)
    requires
        events.len() <= 128,
        queue_after(events, event, admitted) is Ok,
    ensures
        ({
            let after = queue_after(events, event, admitted)->Ok_0;
            &&& event is PointerMotion ==> after.len() > 0 && after.last() == event
            &&& event is Scroll ==> after.len() > 0 && after.last() == event
            &&& event is Key ==> after.len() > 0 && after.last() == event
            &&& event is PointerButton ==> after.len() > 0 && after.last() == event
            &&& event is PointerDelta && (forall|i: int|
                0 <= i < events.len() ==> !(#[trigger] events[i] is PointerDelta)) ==> after.len()
                > 0 && after.last() == event
            &&& after.len() <= 128
        }),
{
    lemma_last_same_kind_place(events, event);
    lemma_first_lossy(events, 0);
    lemma_first_replaceable(events, 0);
}

/// Where there is room and nothing of its kind is queued, or where it is a key or
/// a button, an event joins the queue behind everything that waits there.
pub proof fn law_input_joins_behind_the_rest(
    events: Seq<InputEvent>,
    event: InputEvent,
    admitted: bool,
)
    requires
        events.len() < 128,
        event is PointerMotion ==> forall|i: int|
            0 <= i < events.len() ==> !(#[trigger] events[i] is PointerMotion),
        event is PointerDelta ==> forall|i: int|
            0 <= i < events.len() ==> !(#[trigger] events[i] is PointerDelta),
        event is Scroll ==> forall|i: int|
            0 <= i < events.len() ==> !(#[trigger] events[i] is Scroll),
    ensures
        queue_after(events, event, admitted) == Ok::<_, NativeInputBridgeError>(events.push(event)),
{
    lemma_last_same_kind_place(events, event);
    let index = last_same_kind(events, event);
    if index >= 0 {
        assert(same_kind(events[index], event));
    }
}

/// A full queue gives up its first place or scroll to admit a motion that has
/// nothing of its kind there, and its first place, scroll or relative motion to
/// admit a key or a button.
pub proof fn law_full_queues_give_up_the_first_that_may_go(
    events: Seq<InputEvent>,
    event: InputEvent,
    admitted: bool,
    place: int,
)
    requires
        events.len() == 128,
        0 <= place < 128,
        event is PointerMotion ==> forall|i: int|
            0 <= i < events.len() ==> !(#[trigger] events[i] is PointerMotion),
        event is PointerDelta ==> forall|i: int|
            0 <= i < events.len() ==> !(#[trigger] events[i] is PointerDelta),
        event is Scroll ==> forall|i: int|
            0 <= i < events.len() ==> !(#[trigger] events[i] is Scroll),
        ({
            let motion = event is PointerMotion || event is PointerDelta || event is Scroll;
            &&& events[place] is PointerMotion || events[place] is Scroll || !motion
                && events[place] is PointerDelta
            &&& forall|i: int|
                0 <= i < place ==> !(#[trigger] events[i] is PointerMotion) && !(events[i]
                    is Scroll) && !(!motion && events[i] is PointerDelta)
        }),
    ensures
        queue_after(events, event, admitted) == Ok::<_, NativeInputBridgeError>(
            events.remove(place).push(event),
        ),
{
    lemma_last_same_kind_place(events, event);
    lemma_first_lossy(events, 0);
    lemma_first_replaceable(events, 0);
    lemma_first_places(events, 0);
    let index = last_same_kind(events, event);
    if index >= 0 {
        assert(same_kind(events[index], event));
    }
    if event.replaceable() {
        let first = first_lossy(events, 0);
        assert(!(place < first));
        assert(!(first < place && first < events.len()));
    } else {
        let first = first_replaceable(events, 0);
        assert(!(place < first));
        assert(!(first < place && first < events.len()));
    }
}

/// A motion is refused only by a full queue that holds no place and no scroll;
/// then nothing of its own kind could be replaced either, or its sum does not
/// fit.
pub proof fn law_motion_fails_only_when_nothing_may_go(
    events: Seq<InputEvent>,
    event: InputEvent,
    admitted: bool,
)
    requires
        events.len() <= 128,
        event is PointerMotion || event is PointerDelta || event is Scroll,
    ensures
        queue_after(events, event, admitted) matches Err(error) ==> {
            &&& error is ReplaceableCapacityExhausted
            &&& events.len() == 128
            &&& forall|i: int|
                0 <= i < events.len() ==> !(#[trigger] events[i] is PointerMotion) && !(events[i]
                    is Scroll)
        },
        events.len() == 128 && (forall|i: int|
            0 <= i < events.len() ==> #[trigger] events[i] is Key || events[i] is PointerButton)
            ==> queue_after(events, event, admitted) is Err,
{
    lemma_last_same_kind_place(events, event);
    lemma_first_lossy(events, 0);
    lemma_first_places(events, 0);
    let index = last_same_kind(events, event);
    if index >= 0 {
        assert(same_kind(events[index], event));
    }
    if first_lossy(events, 0) < events.len() {
        assert(lossy(events[first_lossy(events, 0)]));
    } else if queue_after(events, event, admitted) is Err {
        assert forall|i: int| 0 <= i < events.len() implies !(#[trigger] events[i]
            is PointerMotion) && !(events[i] is Scroll) by {
            assert(!lossy(events[i]));
        }
    }
}

/// A relative motion is added where the last one is queued. Two that cancel each
/// other both go; a sum that the vocabulary does not admit, or that does not fit,
/// is not made, and the motion joins the queue as it is.
pub proof fn law_relative_motion_is_added_in_place(
    events: Seq<InputEvent>,
    delta: PointerDelta,
    queued: PointerDelta,
    admitted: bool,
    place: int,
)
    requires
        events.len() <= 128,
        0 <= place < events.len(),
        events[place] == (InputEvent::PointerDelta { delta: queued }),
        forall|i: int| place < i < events.len() ==> !(#[trigger] events[i] is PointerDelta),
    ensures
        ({
            let horizontal = queued.horizontal + delta.horizontal;
            let vertical = queued.vertical + delta.vertical;
            let fits = -0x8000_0000 <= horizontal <= 0x7fff_ffff && -0x8000_0000 <= vertical
                <= 0x7fff_ffff;
            let after = queue_after(events, InputEvent::PointerDelta { delta }, admitted);
            &&& fits && horizontal == 0 && vertical == 0 ==> after == Ok::<
                _,
                NativeInputBridgeError,
            >(events.remove(place))
            &&& fits && !(horizontal == 0 && vertical == 0) && admitted ==> {
                &&& after matches Ok(queue) && queue.len() == events.len()
                &&& (after->Ok_0)[place] matches InputEvent::PointerDelta { delta: sum }
                    && sum.horizontal == horizontal && sum.vertical == vertical
                &&& forall|i: int|
                    0 <= i < events.len() && i != place ==> #[trigger] (after->Ok_0)[i] == events[i]
            }
            &&& (!fits || !admitted && !(horizontal == 0 && vertical == 0)) && events.len() < 128
                ==> after == Ok::<_, NativeInputBridgeError>(
                events.push(InputEvent::PointerDelta { delta }),
            )
        }),
{
    let event = InputEvent::PointerDelta { delta };
    lemma_last_same_kind_place(events, event);
    lemma_last_same_kind_is_last(events, event);
    let index = last_same_kind(events, event);
    assert(same_kind(events[place], event));
    assert(index >= place);
    assert(same_kind(events[index], event));
}

/// Whatever `send` takes is the newest input of the queue, but for relative
/// motion that is added to what waits; what it refuses leaves the queue as it
/// was. No key and no button is ever lost.
pub proof fn law_send_puts_the_newest_input_last(
    buffer: &mut InputBuffer,
    event: InputEvent,
    admitted: bool,
    sent: Result<(), NativeInputBridgeError>,
)
    requires
        old(buffer)@.len() <= 128,
        call_ensures(InputBuffer::send, (buffer, event, admitted), sent),
    ensures
        sent is Err ==> final(buffer)@ == old(buffer)@,
        sent is Ok && !(event is PointerDelta) ==> final(buffer)@.len() > 0
            && final(buffer)@.last() == event,
        sent is Ok && event is PointerDelta && (forall|i: int|
            0 <= i < old(buffer)@.len() ==> !(#[trigger] old(buffer)@[i] is PointerDelta))
            ==> final(buffer)@.len() > 0 && final(buffer)@.last() == event,
        final(buffer)@.len() <= 128,
{
    if queue_after(old(buffer)@, event, admitted) is Ok {
        law_sent_input_comes_last(old(buffer)@, event, admitted);
    }
}

/// Motion that could be added to what waits is the sum that a candidate asks
/// about; there is none where no motion of its kind waits.
pub proof fn law_candidates_add_to_waiting_motion(
    buffer: InputBuffer,
    event: InputEvent,
    sum: Option<PointerDelta>,
)
    requires
        call_ensures(InputBuffer::merge_candidate, (&buffer, event), sum),
    ensures
        sum is Some ==> event is PointerDelta && exists|i: int|
            0 <= i < buffer@.len() && #[trigger] buffer@[i] is PointerDelta,
{
    lemma_last_same_kind_place(buffer@, event);
    let at = last_same_kind(buffer@, event);
    if at >= 0 {
        assert(same_kind(buffer@[at], event));
    }
}

} // verus!
