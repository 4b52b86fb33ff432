//! Actuator intents and the physical pin level they drive.

use vstd::prelude::*;

verus! {

/// A logical command to change the actuator's state, decoupled from the
/// physical pin write. Produced by the two HTTP routes and by the button;
/// consumed by the one task that owns the output pin.
#[derive(Clone, Copy, PartialEq, Eq, Structural, Debug)]
pub enum ActuatorIntent {
    TurnOn,
    TurnOff,
    Toggle,
}

/// The physical level of the output pin. The LED is wired active-low:
/// driving the pin low lights it, driving it high turns it off.
#[derive(Clone, Copy, PartialEq, Eq, Structural, Debug)]
pub enum PinLevel {
    Low,
    High,
}

/// Whether the actuator is in its active (lit) state at a given pin level.
pub open spec fn is_active(level: PinLevel) -> bool {
    level is Low
}

/// The pin level opposite to the given one.
pub open spec fn flipped(level: PinLevel) -> PinLevel {
    match level {
        PinLevel::Low => PinLevel::High,
        PinLevel::High => PinLevel::Low,
    }
}

/// The pin level that results from applying an intent to a pin currently at
/// `level`: `TurnOn` drives the active level, `TurnOff` the inactive one,
/// and `Toggle` the opposite of the current one.
pub open spec fn spec_apply(level: PinLevel, intent: ActuatorIntent) -> PinLevel {
    match intent {
        ActuatorIntent::TurnOn => PinLevel::Low,
        ActuatorIntent::TurnOff => PinLevel::High,
        ActuatorIntent::Toggle => flipped(level),
    }
}

/// Compute the level the pin must be driven to when an intent is applied
/// while the pin is at `level`.
pub fn apply_intent(level: PinLevel, intent: ActuatorIntent) -> (r: PinLevel)
    ensures
        r == spec_apply(level, intent),
{
    match intent {
        ActuatorIntent::TurnOn => PinLevel::Low,
        ActuatorIntent::TurnOff => PinLevel::High,
        ActuatorIntent::Toggle => match level {
            PinLevel::Low => PinLevel::High,
            PinLevel::High => PinLevel::Low,
        },
    }
}

/// Whether a pin at `level` is in the active state. Exec view of
/// [`is_active`] for callers outside the proof world.
pub fn pin_is_active(level: PinLevel) -> (r: bool)
    ensures
        r == is_active(level),
{
    match level {
        PinLevel::Low => true,
        PinLevel::High => false,
    }
}

/// A toggle applied to a pin in the active level drives it inactive, and
/// one applied to a pin in the inactive level drives it active.
pub proof fn lemma_toggle_inverts_activity(level: PinLevel)
    ensures
        is_active(spec_apply(level, ActuatorIntent::Toggle)) == !is_active(level),
{
}

/// Two consecutive toggles with no other intent in between return the pin
/// to its original level.
pub proof fn lemma_double_toggle_restores(level: PinLevel)
    ensures
        spec_apply(spec_apply(level, ActuatorIntent::Toggle), ActuatorIntent::Toggle) == level,
{
}

} // verus!
