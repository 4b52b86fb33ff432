//! The single-slot, latest-wins intent cell shared by all producers, and the
//! consuming step of the actuator task.

use vstd::prelude::*;
use crate::intent::ActuatorIntent;
use crate::intent::PinLevel;
use crate::intent::apply_intent;
use crate::intent::spec_apply;

verus! {

/// What the pending slot holds after one post: the new intent, whatever was
/// pending before. Overwriting an unconsumed intent is the documented
/// latest-wins rule, not a failure.
pub open spec fn post_spec(
    pending: Option<ActuatorIntent>,
    intent: ActuatorIntent,
) -> Option<ActuatorIntent> {
    Some(intent)
}

/// What the pending slot holds after a whole sequence of posts with no
/// consumption in between, starting from `init`.
pub open spec fn posts_applied(
    init: Option<ActuatorIntent>,
    posts: Seq<ActuatorIntent>,
) -> Option<ActuatorIntent>
    decreases posts.len(),
{
    if posts.len() == 0 {
        init
    } else {
        post_spec(posts_applied(init, posts.drop_last()), posts.last())
    }
}

/// A single-slot broadcast cell holding the latest pending actuator intent.
/// Writers overwrite any unconsumed prior value; the one consumer takes the
/// value and clears the slot. In the running device the cell is shared
/// across tasks and a consumer suspends until the slot is filled; this type
/// captures the slot's state and its two operations, and the executor
/// around it supplies the waiting.
pub struct ActuatorSignal {
    slot: Option<ActuatorIntent>,
}

impl ActuatorSignal {
    /// The intent posted since the last consumption, if any.
    pub closed spec fn pending(self) -> Option<ActuatorIntent> {
        self.slot
    }

    /// A fresh cell with nothing pending.
    pub fn new() -> (r: ActuatorSignal)
        ensures
            r.pending() is None,
    {
        ActuatorSignal { slot: None }
    }

    /// Post an intent: non-blocking, overwrites any unconsumed pending
    /// intent, returns immediately.
    pub fn post(&mut self, intent: ActuatorIntent)
        ensures
            final(self).pending() == post_spec(old(self).pending(), intent),
            final(self).pending() == Some(intent),
    {
        self.slot = Some(intent);
    }

    /// Consume the pending intent, clearing the slot. This is the resuming
    /// half of awaiting the next intent: a consumer that finds `None`
    /// suspends and retries once a post has happened.
    pub fn take_next(&mut self) -> (r: Option<ActuatorIntent>)
        ensures
            r == old(self).pending(),
            final(self).pending() is None,
    {
        let r = self.slot;
        self.slot = None;
        r
    }
}

/// The consumer observes exactly the last intent posted before each
/// consumption: after any non-empty burst of posts with no consumption in
/// between, the slot holds the last posted intent — never an intermediate
/// one, never none — and an empty burst leaves the slot as it was.
pub proof fn lemma_consumer_sees_last_post(
    init: Option<ActuatorIntent>,
    posts: Seq<ActuatorIntent>,
)
    ensures
        posts.len() > 0 ==> posts_applied(init, posts) == Some(posts.last()),
        posts.len() == 0 ==> posts_applied(init, posts) == init,
{
}

/// Record a rising edge of the physical button as a toggle intent.
pub fn button_edge(sig: &mut ActuatorSignal)
    ensures
        final(sig).pending() == Some(ActuatorIntent::Toggle),
{
    sig.post(ActuatorIntent::Toggle);
}

/// One cycle of the actuator task: consume the pending intent, if any, and
/// compute the level the pin must be driven to. The running task only
/// reaches this once the cell is filled; a consumer that raced ahead and
/// finds nothing pending leaves the pin alone.
pub fn actuator_step(sig: &mut ActuatorSignal, level: PinLevel) -> (r: PinLevel)
    ensures
        final(sig).pending() is None,
        r == (match old(sig).pending() {
            Some(intent) => spec_apply(level, intent),
            None => level,
        }),
{
    match sig.take_next() {
        Some(intent) => apply_intent(level, intent),
        None => level,
    }
}

} // verus!
