//! Signals and controllers.
//!
//! Input events arrive from the windowing layer once per tick.  They are
//! translated into `SignalType` values and fanned out to every controller;
//! each controller accumulates the signals into its own small parameter
//! state, which a later `process_signals` step applies to the entity it
//! owns.

use vstd::prelude::*;

verus! {

/// The keys the demo reacts to.  Any other key arrives as `Other`.
#[derive(Clone, Copy, PartialEq, Eq, Structural, Debug)]
pub enum Key {
    W,
    A,
    S,
    D,
    Space,
    LCtrl,
    F,
    N,
    E,
    M,
    Equals,
    Minus,
    Escape,
    Other,
}

/// One input signal: a key edge, a mouse motion delta, a wheel delta, or a
/// request to quit.
#[derive(Clone, Copy, PartialEq, Eq, Structural, Debug)]
pub enum SignalType {
    KeyPressed(Key),
    KeyReleased(Key),
    MouseMoved(i32, i32),
    MouseScrolled(i32),
    Quit,
}

/// A receiver of signals: accumulates them into its own parameter state.
pub trait Slot {
    fn on_signal(&mut self, signal: SignalType);
}

/// A controller applies its accumulated parameter state to the entity it
/// owns, then resets its per-tick accumulators.
pub trait Controller<O> {
    /// What the controller needs of its target before a processing step.
    spec fn process_requires(&self, obj: O) -> bool;

    fn process_signals(&mut self, obj: &mut O)
        requires
            old(self).process_requires(*old(obj)),
    ;
}

/// One event as the windowing layer reports it, already mapped to plain
/// values.
#[derive(Clone, Copy, PartialEq, Eq, Structural, Debug)]
pub enum InputEvent {
    Quit,
    Keyboard { key: Key, pressed: bool },
    MouseMotion { x_delta: i32, y_delta: i32 },
    MouseWheel { y_delta: i32 },
}

/// The signal that a non-keyboard event emits immediately, if any.  Mouse
/// motion swaps its deltas: the first signal component is the vertical
/// delta, which drives pitch.
pub open spec fn spec_immediate_signal(e: InputEvent) -> Option<SignalType> {
    match e {
        InputEvent::Quit => Some(SignalType::Quit),
        InputEvent::MouseMotion { x_delta, y_delta } => Some(
            SignalType::MouseMoved(y_delta, x_delta),
        ),
        InputEvent::MouseWheel { y_delta } => Some(SignalType::MouseScrolled(y_delta)),
        InputEvent::Keyboard { .. } => None,
    }
}

/// The signals a tick's worth of events turns into: quit, mouse and wheel
/// events emit immediately in arrival order; keyboard events are coalesced
/// to one signal per key carrying the last reported state, emitted after the
/// rest.
pub open spec fn spec_signals_of(events: Seq<InputEvent>) -> Seq<SignalType>
    decreases events.len(),
{
    spec_immediate_signals(events) + spec_key_signals(spec_last_key_states(events))
}

/// The immediately-emitted signals of a tick, in arrival order.
pub open spec fn spec_immediate_signals(events: Seq<InputEvent>) -> Seq<SignalType>
    decreases events.len(),
{
    if events.len() == 0 {
        Seq::empty()
    } else {
        let head = spec_immediate_signals(events.drop_last());
        match spec_immediate_signal(events.last()) {
            Some(s) => head.push(s),
            None => head,
        }
    }
}

/// The coalesced keyboard state of a tick: one entry per key that had any
/// keyboard event, in order of that key's first event, carrying the last
/// reported pressed state.
pub open spec fn spec_last_key_states(events: Seq<InputEvent>) -> Seq<(Key, bool)>
    decreases events.len(),
{
    if events.len() == 0 {
        Seq::empty()
    } else {
        let head = spec_last_key_states(events.drop_last());
        match events.last() {
            InputEvent::Keyboard { key, pressed } => spec_store_key(head, key, pressed),
            _ => head,
        }
    }
}

/// Update an association list of key states in place, appending a new key.
pub open spec fn spec_store_key(states: Seq<(Key, bool)>, key: Key, pressed: bool) -> Seq<
    (Key, bool),
>
    decreases states.len(),
{
    if states.len() == 0 {
        seq![(key, pressed)]
    } else if states.first().0 == key {
        seq![(key, pressed)] + states.drop_first()
    } else {
        seq![states.first()] + spec_store_key(states.drop_first(), key, pressed)
    }
}

/// The key signals of a coalesced key-state list, in list order.
pub open spec fn spec_key_signals(states: Seq<(Key, bool)>) -> Seq<SignalType>
    decreases states.len(),
{
    if states.len() == 0 {
        Seq::empty()
    } else {
        let s = if states.last().1 {
            SignalType::KeyPressed(states.last().0)
        } else {
            SignalType::KeyReleased(states.last().0)
        };
        spec_key_signals(states.drop_last()).push(s)
    }
}

/// Update an association list of key states in place, appending a new key.
fn store_key(states: &mut Vec<(Key, bool)>, key: Key, pressed: bool)
    ensures
        final(states)@ == spec_store_key(old(states)@, key, pressed),
    decreases old(states)@.len(),
{
    let mut i: usize = 0;
    while i < states.len()
        invariant
            0 <= i <= states@.len(),
            forall|j: int| 0 <= j < i ==> states@[j].0 != key,
            states@ == old(states)@,
        decreases states@.len() - i,
    {
        if states[i].0 == key {
            states[i] = (key, pressed);
            proof {
                lemma_store_key_found(old(states)@, key, pressed, i as int);
            }
            return ;
        }
        i += 1;
    }
    states.push((key, pressed));
    proof {
        lemma_store_key_missing(old(states)@, key, pressed);
    }
}

/// Where the key is absent, storing it appends it.
proof fn lemma_store_key_missing(states: Seq<(Key, bool)>, key: Key, pressed: bool)
    requires
        forall|j: int| 0 <= j < states.len() ==> states[j].0 != key,
    ensures
        spec_store_key(states, key, pressed) =~= states.push((key, pressed)),
    decreases states.len(),
{
    if states.len() > 0 {
        lemma_store_key_missing(states.drop_first(), key, pressed);
    }
}

/// Where the key first occurs at `i`, storing it updates that entry.
proof fn lemma_store_key_found(states: Seq<(Key, bool)>, key: Key, pressed: bool, i: int)
    requires
        0 <= i < states.len(),
        states[i].0 == key,
        forall|j: int| 0 <= j < i ==> states[j].0 != key,
    ensures
        spec_store_key(states, key, pressed) =~= states.update(i, (key, pressed)),
    decreases states.len(),
{
    if i == 0 {
        assert(spec_store_key(states, key, pressed) =~= states.update(0, (key, pressed)));
    } else {
        lemma_store_key_found(states.drop_first(), key, pressed, i - 1);
        assert(spec_store_key(states, key, pressed) =~= states.update(i, (key, pressed)));
    }
}

/// Translate one tick's worth of input events into the signals to fan out:
/// quit, mouse and wheel signals in arrival order, then one key signal per
/// touched key with its last reported state.
pub fn signals_of(events: &Vec<InputEvent>) -> (r: Vec<SignalType>)
    ensures
        r@ == spec_signals_of(events@),
{
    let mut immediate: Vec<SignalType> = Vec::new();
    let mut states: Vec<(Key, bool)> = Vec::new();
    let mut i: usize = 0;
    while i < events.len()
        invariant
            0 <= i <= events@.len(),
            immediate@ == spec_immediate_signals(events@.take(i as int)),
            states@ == spec_last_key_states(events@.take(i as int)),
        decreases events@.len() - i,
    {
        proof {
            assert(events@.take(i + 1 as int).drop_last() =~= events@.take(i as int));
            assert(events@.take(i + 1 as int).last() == events@[i as int]);
        }
        match events[i] {
            InputEvent::Quit => {
                immediate.push(SignalType::Quit);
            },
            InputEvent::Keyboard { key, pressed } => {
                store_key(&mut states, key, pressed);
            },
            InputEvent::MouseMotion { x_delta, y_delta } => {
                immediate.push(SignalType::MouseMoved(y_delta, x_delta));
            },
            InputEvent::MouseWheel { y_delta } => {
                immediate.push(SignalType::MouseScrolled(y_delta));
            },
        }
        i += 1;
    }
    proof {
        assert(events@.take(events@.len() as int) =~= events@);
    }
    let mut out = immediate;
    let mut k: usize = 0;
    while k < states.len()
        invariant
            0 <= k <= states@.len(),
            out@ == spec_immediate_signals(events@) + spec_key_signals(states@.take(k as int)),
            states@ == spec_last_key_states(events@),
        decreases states@.len() - k,
    {
        let (key, pressed) = states[k];
        let s = if pressed {
            SignalType::KeyPressed(key)
        } else {
            SignalType::KeyReleased(key)
        };
        out.push(s);
        proof {
            assert(states@.take(k + 1 as int).drop_last() =~= states@.take(k as int));
            assert(states@.take(k + 1 as int).last() == states@[k as int]);
        }
        k += 1;
    }
    proof {
        assert(states@.take(states@.len() as int) =~= states@);
    }
    out
}

} // verus!
