//! The set of keys that are currently held down.

use vstd::prelude::*;

verus! {

/// A key of the keyboard: the ones the harness reacts to by name, every other
/// one by the code the window system gives it.
#[derive(Clone, Copy, Debug, PartialEq, Eq, Structural)]
pub enum Key {
    A,
    D,
    W,
    S,
    Q,
    Escape,
    Other(u32),
}

/// What one key event does to the sequence of held keys: a press appends the
/// key unless it is already held, a release removes it if it is held.
pub open spec fn transition(held: Seq<Key>, key: Key, pressed: bool) -> Seq<Key> {
    if pressed {
        if held.contains(key) {
            held
        } else {
            held.push(key)
        }
    } else {
        held.remove_value(key)
    }
}

/// The held keys after a whole sequence of key events, starting from `held`.
pub open spec fn replay(held: Seq<Key>, events: Seq<(Key, bool)>) -> Seq<Key>
    decreases events.len(),
{
    if events.len() == 0 {
        held
    } else {
        transition(replay(held, events.drop_last()), events.last().0, events.last().1)
    }
}

/// Whether `key` is down after `events`, given whether it was down before:
/// the last event that names the key decides.
pub open spec fn held_after(before: bool, events: Seq<(Key, bool)>, key: Key) -> bool
    decreases events.len(),
{
    if events.len() == 0 {
        before
    } else if events.last().0 == key {
        events.last().1
    } else {
        held_after(before, events.drop_last(), key)
    }
}

/// One key event keeps a duplicate-free sequence duplicate-free, and afterwards
/// the key is held exactly if the event was a press; no other key is touched.
pub proof fn lemma_transition(held: Seq<Key>, key: Key, pressed: bool)
    requires
        held.no_duplicates(),
    ensures
        transition(held, key, pressed).no_duplicates(),
        transition(held, key, pressed).contains(key) == pressed,
        forall|other: Key|
            other != key ==> transition(held, key, pressed).contains(other) == held.contains(
                other,
            ),
{
    let next = transition(held, key, pressed);
    if pressed {
        if !held.contains(key) {
            assert(next.last() == key);
            assert forall|other: Key| other != key implies next.contains(other) == held.contains(
                other,
            ) by {
                if held.contains(other) {
                    let i = choose|i: int| 0 <= i < held.len() && held[i] == other;
                    assert(next[i] == other);
                }
            }
        }
    } else {
        held.index_of_first_ensures(key);
        match held.index_of_first(key) {
            Some(at) => {
                assert(next == held.remove(at));
                assert forall|i: int, j: int|
                    0 <= i < next.len() && 0 <= j < next.len() && i != j implies next[i]
                    != next[j] by {
                    let oi = if i < at { i } else { i + 1 };
                    let oj = if j < at { j } else { j + 1 };
                    assert(next[i] == held[oi] && next[j] == held[oj]);
                }
                assert(!next.contains(key)) by {
                    if next.contains(key) {
                        let i = choose|i: int| 0 <= i < next.len() && next[i] == key;
                        let oi = if i < at { i } else { i + 1 };
                        assert(held[oi] == key);
                    }
                }
                assert forall|other: Key| other != key implies next.contains(other)
                    == held.contains(other) by {
                    if held.contains(other) {
                        let i = choose|i: int| 0 <= i < held.len() && held[i] == other;
                        let ni = if i < at { i } else { i - 1 };
                        assert(next[ni] == other);
                    }
                    if next.contains(other) {
                        let i = choose|i: int| 0 <= i < next.len() && next[i] == other;
                        let oi = if i < at { i } else { i + 1 };
                        assert(held[oi] == other);
                    }
                }
            },
            None => {},
        }
    }
}

/// Whatever the key events, no key is ever held twice.
pub proof fn lemma_replay_no_duplicates(held: Seq<Key>, events: Seq<(Key, bool)>)
    requires
        held.no_duplicates(),
    ensures
        replay(held, events).no_duplicates(),
    decreases events.len(),
{
    if events.len() > 0 {
        lemma_replay_no_duplicates(held, events.drop_last());
        lemma_transition(replay(held, events.drop_last()), events.last().0, events.last().1);
    }
}

/// After any key events a key is held exactly if the last event that names it
/// was a press (or, if none names it, if it was held before).
pub proof fn lemma_replay_contains(held: Seq<Key>, events: Seq<(Key, bool)>, key: Key)
    requires
        held.no_duplicates(),
    ensures
        replay(held, events).contains(key) == held_after(held.contains(key), events, key),
    decreases events.len(),
{
    if events.len() > 0 {
        lemma_replay_no_duplicates(held, events.drop_last());
        lemma_replay_contains(held, events.drop_last(), key);
        lemma_transition(replay(held, events.drop_last()), events.last().0, events.last().1);
    }
}

/// A key that was released, with no press of it after that release, is not
/// held.
pub proof fn lemma_released_key_absent(
    held: Seq<Key>,
    events: Seq<(Key, bool)>,
    key: Key,
    release: int,
)
    requires
        held.no_duplicates(),
        0 <= release < events.len(),
        events[release] == (key, false),
        forall|later: int| release < later < events.len() ==> events[later] != (key, true),
    ensures
        !replay(held, events).contains(key),
    decreases events.len(),
{
    lemma_replay_no_duplicates(held, events.drop_last());
    lemma_transition(replay(held, events.drop_last()), events.last().0, events.last().1);
    if release < events.len() - 1 {
        lemma_released_key_absent(held, events.drop_last(), key, release);
    }
}

/// The keys that are held down, in the order in which they were pressed.
pub struct PressedKeys {
    keys: Vec<Key>,
}

impl View for PressedKeys {
    type V = Seq<Key>;

    closed spec fn view(&self) -> Seq<Key> {
        self.keys@
    }
}

impl PressedKeys {
    #[verifier::type_invariant]
    spec fn held_once(&self) -> bool {
        self.keys@.no_duplicates()
    }

    /// No key is held.
    pub fn new() -> (held: PressedKeys)
        ensures
            held@ == Seq::<Key>::empty(),
    {
        PressedKeys { keys: Vec::new() }
    }

    /// The number of held keys.
    pub fn len(&self) -> (n: usize)
        ensures
            n == self@.len(),
    {
        self.keys.len()
    }

    /// Where `key` stands among the held keys, if it is held.
    pub fn position(&self, key: Key) -> (at: Option<usize>)
        ensures
            match at {
                Some(i) => self@.index_of_first(key) == Some(i as int),
                None => self@.index_of_first(key) is None,
            },
            at is Some == self@.contains(key),
    {
        let mut i: usize = 0;
        while i < self.keys.len()
            invariant
                i <= self.keys.len(),
                forall|j: int| 0 <= j < i ==> self.keys@[j] != key,
            decreases self.keys.len() - i,
        {
            if self.keys[i] == key {
                proof {
                    self@.index_of_first_ensures(key);
                }
                return Some(i);
            }
            i += 1;
        }
        proof {
            self@.index_of_first_ensures(key);
        }
        None
    }

    /// Whether `key` is held.
    pub fn contains(&self, key: Key) -> (held: bool)
        ensures
            held == self@.contains(key),
    {
        self.position(key).is_some()
    }

    /// Records a press or a release of `key`. A press of a held key and a
    /// release of a key that is not held change nothing.
    pub fn record_key_transition(&mut self, key: Key, pressed: bool)
        ensures
            final(self)@ == transition(old(self)@, key, pressed),
            final(self)@.no_duplicates(),
            final(self)@.contains(key) == pressed,
            forall|other: Key|
                other != key ==> final(self)@.contains(other) == old(self)@.contains(other),
    {
        proof {
            use_type_invariant(&*self);
            lemma_transition(self@, key, pressed);
        }
        let at = self.position(key);
        proof {
            self@.index_of_first_ensures(key);
        }
        // The keys are changed outside `self`, so that `self` holds no key
        // twice at every step, whatever happens in between.
        let mut keys: Vec<Key> = Vec::new();
        core::mem::swap(&mut self.keys, &mut keys);
        match at {
            Some(i) => {
                if !pressed {
                    keys.remove(i);
                }
            },
            None => {
                if pressed {
                    keys.push(key);
                }
            },
        }
        core::mem::swap(&mut self.keys, &mut keys);
    }

    /// A copy of the held keys, in the order in which they were pressed.
    pub fn read_keys(&self) -> (snapshot: Vec<Key>)
        ensures
            snapshot@ == self@,
            snapshot@.no_duplicates(),
    {
        proof {
            use_type_invariant(self);
        }
        self.keys.clone()
    }
}

} // verus!
