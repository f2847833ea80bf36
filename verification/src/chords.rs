use vstd::prelude::*;

verus! {

/// One key transition, as the external event source reports it.
#[derive(Clone, Copy, PartialEq, Eq, Structural, Debug)]
pub enum Transition {
    Down,
    Up,
}

/// The only process-wide mutable state of the core: whether mapping is on,
/// and whether the toggle chord has already fired since its last release
/// (the edge that de-duplicates key-repeat).
#[derive(Clone, Copy, PartialEq, Eq, Structural, Debug)]
pub struct MapperState {
    pub enabled: bool,
    pub toggle_chord_active: bool,
}

impl MapperState {
    /// The startup state: mapping on, toggle chord armed.
    pub fn startup() -> (r: MapperState)
        ensures
            r.enabled,
            !r.toggle_chord_active,
    {
        MapperState { enabled: true, toggle_chord_active: false }
    }
}

/// The designated key of the chord that toggles mapping on and off.
pub const TOGGLE_KEY: char = 'M';

/// The designated key of the chord that terminates the process.
pub const EXIT_KEY: char = 'Q';

/// The designated key of the diagnostic chord that reprints the banner.
pub const DIAGNOSTIC_KEY: char = 'B';

pub open spec fn is_toggle_chord(ctrl: bool, alt: bool, key: char) -> bool {
    ctrl && alt && key == TOGGLE_KEY
}

pub open spec fn is_exit_chord(ctrl: bool, alt: bool, key: char) -> bool {
    ctrl && alt && key == EXIT_KEY
}

pub open spec fn is_diagnostic_chord(ctrl: bool, alt: bool, key: char) -> bool {
    ctrl && alt && key == DIAGNOSTIC_KEY
}

/// Whether this event is the edge on which the toggle command fires: a
/// key-down of the toggle chord while the chord is still armed.
pub open spec fn toggle_fires(
    s: MapperState,
    ctrl: bool,
    alt: bool,
    key: char,
    transition: Transition,
) -> bool {
    is_toggle_chord(ctrl, alt, key) && transition is Down && !s.toggle_chord_active
}

/// The state after one event has run through the toggle state machine: the
/// firing edge flips `enabled` and disarms the chord; the key-up of the
/// chord re-arms it unconditionally; everything else leaves the state as it
/// was.
pub open spec fn spec_toggle_step(
    s: MapperState,
    ctrl: bool,
    alt: bool,
    key: char,
    transition: Transition,
) -> MapperState {
    if toggle_fires(s, ctrl, alt, key, transition) {
        MapperState { enabled: !s.enabled, toggle_chord_active: true }
    } else if is_toggle_chord(ctrl, alt, key) && transition is Up {
        MapperState { enabled: s.enabled, toggle_chord_active: false }
    } else {
        s
    }
}

/// What one run of the toggle state machine asks of the caller.
#[derive(Clone, Copy, PartialEq, Eq, Structural, Debug)]
pub struct ToggleOutcome {
    /// The event belonged to the toggle chord and must be suppressed,
    /// whether or not the edge fired.
    pub handled: bool,
    /// When the edge fired: the new enabled value, to be handed to the
    /// external notifier.
    pub notify: Option<bool>,
}

/// Runs one event through the toggle state machine. The chord always
/// reports handled, so its designated key never leaks through as a literal
/// keystroke while Ctrl and Alt are held; the flip itself is edge-triggered.
pub fn toggle_runes(
    state: &mut MapperState,
    ctrl: bool,
    alt: bool,
    key: char,
    transition: Transition,
) -> (r: ToggleOutcome)
    ensures
        *final(state) == spec_toggle_step(*old(state), ctrl, alt, key, transition),
        r.handled == is_toggle_chord(ctrl, alt, key),
        r.notify == (if toggle_fires(*old(state), ctrl, alt, key, transition) {
            Some(!old(state).enabled)
        } else {
            None::<bool>
        }),
{
    if ctrl && alt && key == TOGGLE_KEY {
        if transition == Transition::Down && !state.toggle_chord_active {
            state.enabled = !state.enabled;
            state.toggle_chord_active = true;
            ToggleOutcome { handled: true, notify: Some(state.enabled) }
        } else if transition == Transition::Up {
            state.toggle_chord_active = false;
            ToggleOutcome { handled: true, notify: None }
        } else {
            ToggleOutcome { handled: true, notify: None }
        }
    } else {
        ToggleOutcome { handled: false, notify: None }
    }
}

/// Whether this event is the exit command: a key-down of the exit chord.
pub open spec fn exit_fires(ctrl: bool, alt: bool, key: char, transition: Transition) -> bool {
    is_exit_chord(ctrl, alt, key) && transition is Down
}

/// Recognizes the exit command; the caller terminates the process when it
/// reports true.
pub fn process_exit_command(ctrl: bool, alt: bool, key: char, transition: Transition) -> (r: bool)
    ensures
        r == exit_fires(ctrl, alt, key, transition),
{
    ctrl && alt && key == EXIT_KEY && transition == Transition::Down
}

/// Edge-triggered toggling: a single key-down of the toggle chord flips
/// `enabled`; a second key-down without an intervening key-up of the chord
/// does not flip it again; a key-up followed by a new key-down flips it
/// again.
pub proof fn lemma_toggle_edge(s: MapperState, ctrl: bool, alt: bool, key: char)
    requires
        is_toggle_chord(ctrl, alt, key),
        !s.toggle_chord_active,
    ensures
        ({
            let s1 = spec_toggle_step(s, ctrl, alt, key, Transition::Down);
            let s2 = spec_toggle_step(s1, ctrl, alt, key, Transition::Down);
            let s3 = spec_toggle_step(s1, ctrl, alt, key, Transition::Up);
            let s4 = spec_toggle_step(s3, ctrl, alt, key, Transition::Down);
            &&& s1.enabled == !s.enabled
            &&& s1.toggle_chord_active
            &&& s2 == s1
            &&& s4.enabled == !s1.enabled
        }),
{
}

/// Round trip: disabling then re-enabling mapping via two toggle chords,
/// each key-down followed by its key-up, restores `enabled` to its original
/// value and leaves the chord re-armed.
pub proof fn lemma_toggle_round_trip(s: MapperState, ctrl: bool, alt: bool, key: char)
    requires
        is_toggle_chord(ctrl, alt, key),
        !s.toggle_chord_active,
    ensures
        ({
            let s1 = spec_toggle_step(s, ctrl, alt, key, Transition::Down);
            let s2 = spec_toggle_step(s1, ctrl, alt, key, Transition::Up);
            let s3 = spec_toggle_step(s2, ctrl, alt, key, Transition::Down);
            let s4 = spec_toggle_step(s3, ctrl, alt, key, Transition::Up);
            s4 == (MapperState { enabled: s.enabled, toggle_chord_active: false })
        }),
{
}

} // verus!
