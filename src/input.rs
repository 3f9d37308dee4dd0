use vstd::prelude::*;

verus! {

/// One of the three world axes; the world is right-handed with Z up.
#[derive(Clone, Copy, Debug, PartialEq, Eq, Structural)]
pub enum Axis {
    X,
    Y,
    Z,
}

/// Whether a key went down or came back up.
#[derive(Clone, Copy, Debug, PartialEq, Eq, Structural)]
pub enum KeyState {
    Pressed,
    Released,
}

/// The physical keys the viewer distinguishes; every other key is `Other`,
/// and a key the platform could not identify is `Unidentified`.
#[derive(Clone, Copy, Debug, PartialEq, Eq, Structural)]
pub enum Key {
    ArrowUp,
    ArrowDown,
    ArrowLeft,
    ArrowRight,
    Space,
    ShiftRight,
    Other,
    Unidentified,
}

/// A keyboard transition as the platform reports it.
#[derive(Clone, Copy, Debug, PartialEq, Eq, Structural)]
pub struct KeyInput {
    pub state: KeyState,
    pub key: Key,
}

/// One step of the camera along one axis: `forward` moves towards the
/// positive end of the axis.
#[derive(Clone, Copy, Debug, PartialEq, Eq, Structural)]
pub struct Step {
    pub axis: Axis,
    pub forward: bool,
}

/// The step a key stands for, whatever its state.
pub open spec fn key_step(key: Key) -> Option<Step> {
    match key {
        Key::ArrowUp => Some(Step { axis: Axis::Y, forward: true }),
        Key::ArrowDown => Some(Step { axis: Axis::Y, forward: false }),
        Key::ArrowLeft => Some(Step { axis: Axis::X, forward: true }),
        Key::ArrowRight => Some(Step { axis: Axis::X, forward: false }),
        Key::Space => Some(Step { axis: Axis::Z, forward: true }),
        Key::ShiftRight => Some(Step { axis: Axis::Z, forward: false }),
        _ => None,
    }
}

/// The camera step a keyboard transition asks for: only a press of one of
/// the six directional keys moves the camera.
pub open spec fn requested_step(input: KeyInput) -> Option<Step> {
    match input.state {
        KeyState::Released => None,
        KeyState::Pressed => key_step(input.key),
    }
}

/// Computes `requested_step`.
pub fn step_for(input: KeyInput) -> (r: Option<Step>)
    ensures
        r == requested_step(input),
{
    match input.state {
        KeyState::Released => None,
        KeyState::Pressed => match input.key {
            Key::ArrowUp => Some(Step { axis: Axis::Y, forward: true }),
            Key::ArrowDown => Some(Step { axis: Axis::Y, forward: false }),
            Key::ArrowLeft => Some(Step { axis: Axis::X, forward: true }),
            Key::ArrowRight => Some(Step { axis: Axis::X, forward: false }),
            Key::Space => Some(Step { axis: Axis::Z, forward: true }),
            Key::ShiftRight => Some(Step { axis: Axis::Z, forward: false }),
            Key::Other | Key::Unidentified => None,
        },
    }
}

} // verus!
