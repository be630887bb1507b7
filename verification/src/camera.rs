//! What the held keys do to the camera in one frame.

use vstd::prelude::*;
use crate::keys::lemma_released_key_absent;
use crate::keys::lemma_replay_no_duplicates;
use crate::keys::replay;
use crate::keys::Key;
use crate::keys::PressedKeys;

verus! {

/// An axis that the camera is turned about.
#[derive(Clone, Copy, Debug, PartialEq, Eq, Structural)]
pub enum Axis {
    X,
    Y,
}

/// The sense of a turn: by the fixed increment taken negative, or positive.
#[derive(Clone, Copy, Debug, PartialEq, Eq, Structural)]
pub enum Turn {
    Negative,
    Positive,
}

/// One turn of the camera by the fixed increment.
#[derive(Clone, Copy, Debug, PartialEq, Eq, Structural)]
pub struct CameraStep {
    pub axis: Axis,
    pub turn: Turn,
}

/// The turn that a held key asks for in each frame, if it asks for one.
pub open spec fn step_of(key: Key) -> Option<CameraStep> {
    match key {
        Key::A => Some(CameraStep { axis: Axis::Y, turn: Turn::Negative }),
        Key::D => Some(CameraStep { axis: Axis::Y, turn: Turn::Positive }),
        Key::W => Some(CameraStep { axis: Axis::X, turn: Turn::Negative }),
        Key::S => Some(CameraStep { axis: Axis::X, turn: Turn::Positive }),
        _ => None,
    }
}

/// The turns of one frame: one for each held key that asks for one, in the
/// order in which the keys are held.
pub open spec fn steps_of(held: Seq<Key>) -> Seq<CameraStep>
    decreases held.len(),
{
    if held.len() == 0 {
        Seq::empty()
    } else {
        match step_of(held.last()) {
            Some(step) => steps_of(held.drop_last()).push(step),
            None => steps_of(held.drop_last()),
        }
    }
}

/// No two keys ask for the same turn.
pub proof fn lemma_step_names_its_key(first: Key, second: Key)
    requires
        step_of(first) is Some,
        step_of(first) == step_of(second),
    ensures
        first == second,
{
}

/// A turn is among those of a frame exactly if a held key asks for it.
pub proof fn lemma_steps_membership(held: Seq<Key>, step: CameraStep)
    ensures
        steps_of(held).contains(step) <==> exists|key: Key|
            held.contains(key) && step_of(key) == Some(step),
    decreases held.len(),
{
    if held.len() > 0 {
        let earlier = held.drop_last();
        let last = held.last();
        lemma_steps_membership(earlier, step);
        if steps_of(held).contains(step) {
            if steps_of(earlier).contains(step) {
                let key = choose|key: Key| earlier.contains(key) && step_of(key) == Some(step);
                let i = choose|i: int| 0 <= i < earlier.len() && earlier[i] == key;
                assert(held[i] == key);
            } else {
                let i = choose|i: int| 0 <= i < steps_of(held).len() && steps_of(held)[i] == step;
                assert(step_of(last) == Some(step));
                assert(held[held.len() - 1] == last);
            }
        }
        if exists|key: Key| held.contains(key) && step_of(key) == Some(step) {
            let key = choose|key: Key| held.contains(key) && step_of(key) == Some(step);
            let i = choose|i: int| 0 <= i < held.len() && held[i] == key;
            if i < earlier.len() {
                assert(earlier[i] == key);
                let j = choose|j: int|
                    0 <= j < steps_of(earlier).len() && steps_of(earlier)[j] == step;
                assert(steps_of(held)[j] == step);
            } else {
                assert(steps_of(held).last() == step);
            }
        }
    }
}

/// In one frame a held key turns the camera once, and a key that is not held
/// does not turn it: with no key held twice, no turn comes twice, and the
/// turn of a key is among those of the frame exactly if the key is held.
pub proof fn lemma_one_turn_per_held_key(held: Seq<Key>, key: Key, step: CameraStep)
    requires
        held.no_duplicates(),
        step_of(key) == Some(step),
    ensures
        steps_of(held).no_duplicates(),
        steps_of(held).len() <= held.len(),
        steps_of(held).contains(step) == held.contains(key),
    decreases held.len(),
{
    lemma_steps_membership(held, step);
    if held.contains(key) {
        assert(held.contains(key) && step_of(key) == Some(step));
    }
    if steps_of(held).contains(step) {
        let other = choose|other: Key| held.contains(other) && step_of(other) == Some(step);
        lemma_step_names_its_key(key, other);
    }
    if held.len() > 0 {
        let earlier = held.drop_last();
        let last = held.last();
        lemma_one_turn_per_held_key(earlier, key, step);
        match step_of(last) {
            Some(added) => {
                lemma_steps_membership(earlier, added);
                if steps_of(earlier).contains(added) {
                    let other = choose|other: Key|
                        earlier.contains(other) && step_of(other) == Some(added);
                    lemma_step_names_its_key(last, other);
                    let i = choose|i: int| 0 <= i < earlier.len() && earlier[i] == other;
                    assert(held[i] == held[held.len() - 1]);
                }
            },
            None => {},
        }
    }
}

/// Once a key is released, with no press of it after that release, the
/// frames that follow no longer hold its turn.
pub proof fn lemma_released_key_turns_no_more(
    held: Seq<Key>,
    events: Seq<(Key, bool)>,
    key: Key,
    step: CameraStep,
    release: int,
)
    requires
        held.no_duplicates(),
        step_of(key) == Some(step),
        0 <= release < events.len(),
        events[release] == (key, false),
        forall|later: int| release < later < events.len() ==> events[later] != (key, true),
    ensures
        !steps_of(replay(held, events)).contains(step),
{
    lemma_released_key_absent(held, events, key, release);
    lemma_replay_no_duplicates(held, events);
    lemma_one_turn_per_held_key(replay(held, events), key, step);
}

/// The turn that `key` asks for in each frame while it is held.
pub fn camera_step(key: Key) -> (step: Option<CameraStep>)
    ensures
        step == step_of(key),
{
    match key {
        Key::A => Some(CameraStep { axis: Axis::Y, turn: Turn::Negative }),
        Key::D => Some(CameraStep { axis: Axis::Y, turn: Turn::Positive }),
        Key::W => Some(CameraStep { axis: Axis::X, turn: Turn::Negative }),
        Key::S => Some(CameraStep { axis: Axis::X, turn: Turn::Positive }),
        _ => None,
    }
}

/// The turns to apply to the camera in this frame, in order.
pub fn frame_steps(held: &PressedKeys) -> (steps: Vec<CameraStep>)
    ensures
        steps@ == steps_of(held@),
{
    let keys = held.read_keys();
    let mut steps: Vec<CameraStep> = Vec::new();
    let mut i: usize = 0;
    while i < keys.len()
        invariant
            i <= keys.len(),
            steps@ == steps_of(keys@.take(i as int)),
        decreases keys.len() - i,
    {
        proof {
            assert(keys@.take(i + 1).drop_last() =~= keys@.take(i as int));
        }
        match camera_step(keys[i]) {
            Some(step) => {
                steps.push(step);
            },
            None => {},
        }
        i += 1;
    }
    proof {
        assert(keys@.take(i as int) =~= keys@);
    }
    steps
}

} // verus!
