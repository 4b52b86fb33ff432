use control_core::intent::ActuatorIntent;
use control_core::intent::PinLevel;
use control_core::signal::actuator_step;
use control_core::signal::button_edge;
use control_core::signal::ActuatorSignal;

#[test]
fn fresh_cell_has_nothing_pending() {
    let mut sig = ActuatorSignal::new();
    assert_eq!(sig.take_next(), None);
}

#[test]
fn post_then_take_returns_the_intent_and_clears() {
    let mut sig = ActuatorSignal::new();
    sig.post(ActuatorIntent::TurnOn);
    assert_eq!(sig.take_next(), Some(ActuatorIntent::TurnOn));
    assert_eq!(sig.take_next(), None);
}

#[test]
fn consumer_sees_only_the_last_of_a_burst() {
    let mut sig = ActuatorSignal::new();
    sig.post(ActuatorIntent::TurnOn);
    sig.post(ActuatorIntent::Toggle);
    sig.post(ActuatorIntent::TurnOff);
    assert_eq!(sig.take_next(), Some(ActuatorIntent::TurnOff));
    assert_eq!(sig.take_next(), None);
}

#[test]
fn each_consumption_sees_the_last_post_before_it() {
    let mut sig = ActuatorSignal::new();
    sig.post(ActuatorIntent::TurnOn);
    sig.post(ActuatorIntent::TurnOff);
    assert_eq!(sig.take_next(), Some(ActuatorIntent::TurnOff));
    sig.post(ActuatorIntent::Toggle);
    assert_eq!(sig.take_next(), Some(ActuatorIntent::Toggle));
}

#[test]
fn button_edge_posts_a_toggle() {
    let mut sig = ActuatorSignal::new();
    button_edge(&mut sig);
    assert_eq!(sig.take_next(), Some(ActuatorIntent::Toggle));
}

#[test]
fn actuator_step_applies_the_pending_intent() {
    let mut sig = ActuatorSignal::new();
    sig.post(ActuatorIntent::TurnOn);
    let level = actuator_step(&mut sig, PinLevel::High);
    assert_eq!(level, PinLevel::Low);
    assert_eq!(sig.take_next(), None);
}

#[test]
fn actuator_step_with_nothing_pending_keeps_the_level() {
    let mut sig = ActuatorSignal::new();
    let level = actuator_step(&mut sig, PinLevel::High);
    assert_eq!(level, PinLevel::High);
}

#[test]
fn button_toggle_overwritten_by_http_post_is_dropped() {
    // The documented latest-wins rule: an unconsumed button toggle is
    // silently replaced by a later post, not queued behind it.
    let mut sig = ActuatorSignal::new();
    button_edge(&mut sig);
    sig.post(ActuatorIntent::TurnOn);
    assert_eq!(sig.take_next(), Some(ActuatorIntent::TurnOn));
    assert_eq!(sig.take_next(), None);
}
