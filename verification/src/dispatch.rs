//! What the event loop decides for each event it is handed.

use vstd::prelude::*;
use crate::keys::Key;

verus! {

/// An event of the window system, as far as the harness reacts to it.
#[derive(Clone, Copy, Debug, PartialEq, Eq, Structural)]
pub enum InputEvent {
    /// The user asked to close the window.
    CloseRequested,
    /// A key went down (`pressed`) or up.
    Keyboard { key: Key, pressed: bool },
    /// The pointer moved.
    PointerMotion,
    /// Anything else.
    Other,
}

/// Whether the event loop goes on waiting for events or ends the process.
#[derive(Clone, Copy, Debug, PartialEq, Eq, Structural)]
pub enum LoopControl {
    Wait,
    Exit,
}

/// What an event changes in the state that the threads share.
#[derive(Clone, Copy, Debug, PartialEq, Eq, Structural)]
pub enum InputUpdate {
    /// Nothing.
    Nothing,
    /// The held keys take in this press or release.
    KeyTransition { key: Key, pressed: bool },
    /// The motion is added to the pointer motion not yet consumed.
    PointerMotion,
}

/// The event loop's answer to one event.
#[derive(Clone, Copy, Debug, PartialEq, Eq, Structural)]
pub struct Dispatch {
    pub control: LoopControl,
    pub update: InputUpdate,
}

/// The keys that end the process, pressed or released.
pub open spec fn is_quit_key(key: Key) -> bool {
    key == Key::Escape || key == Key::Q
}

/// Whether the process is to end. `health` is the render thread's flag, and
/// absent if it could not be read, which by itself ends nothing.
pub open spec fn ends_process(health: Option<bool>, event: InputEvent) -> bool {
    ||| health == Some(false)
    ||| event == InputEvent::CloseRequested
    ||| event matches InputEvent::Keyboard { key, .. } && is_quit_key(key)
}

/// What `event` changes in the shared state.
pub open spec fn update_for(event: InputEvent) -> InputUpdate {
    match event {
        InputEvent::Keyboard { key, pressed } => InputUpdate::KeyTransition { key, pressed },
        InputEvent::PointerMotion => InputUpdate::PointerMotion,
        _ => InputUpdate::Nothing,
    }
}

/// Whether `key` ends the process.
pub fn quits(key: Key) -> (quit: bool)
    ensures
        quit == is_quit_key(key),
{
    match key {
        Key::Escape => true,
        Key::Q => true,
        _ => false,
    }
}

/// Decides one turn of the event loop. The render thread's flag is looked
/// at on every turn, whatever the event: a flag that is down ends the
/// process, one that could not be read is passed over. A key event is
/// recorded even if the key also ends the process.
pub fn dispatch_event(health: Option<bool>, event: InputEvent) -> (answer: Dispatch)
    ensures
        answer.control == (if ends_process(health, event) {
            LoopControl::Exit
        } else {
            LoopControl::Wait
        }),
        answer.update == update_for(event),
        health == Some(false) ==> answer.control == LoopControl::Exit,
{
    let mut control = LoopControl::Wait;
    match health {
        Some(healthy) => {
            if !healthy {
                control = LoopControl::Exit;
            }
        },
        None => {},
    }
    let update = match event {
        InputEvent::CloseRequested => {
            control = LoopControl::Exit;
            InputUpdate::Nothing
        },
        InputEvent::Keyboard { key, pressed } => {
            if quits(key) {
                control = LoopControl::Exit;
            }
            InputUpdate::KeyTransition { key, pressed }
        },
        InputEvent::PointerMotion => InputUpdate::PointerMotion,
        InputEvent::Other => InputUpdate::Nothing,
    };
    Dispatch { control, update }
}

} // verus!
