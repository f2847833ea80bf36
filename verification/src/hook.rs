use vstd::prelude::*;
use crate::chords::{
    is_diagnostic_chord, is_toggle_chord, exit_fires, process_exit_command, spec_toggle_step,
    toggle_fires, toggle_runes, MapperState, Transition, DIAGNOSTIC_KEY,
};
use crate::keymap::KeyMapper;
use crate::modifiers::ModifierSnapshot;
use crate::synth::{synthesize_units, utf16_units};

verus! {

/// The verdict handed back to the external event source: swallow the
/// physical event, or delegate it to the remaining hooks and applications.
#[derive(Clone, Copy, PartialEq, Eq, Structural, Debug)]
pub enum Verdict {
    Suppress,
    PassThrough,
}

/// Everything one callback invocation asks of the boundary adapter. The
/// core never performs the side effects itself: it returns them as values
/// so the adapter can fire them outside the verified path.
#[derive(Debug)]
pub struct HookOutcome {
    pub verdict: Verdict,
    /// The new enabled value to hand to the external notifier, when the
    /// toggle edge fired.
    pub notify: Option<bool>,
    /// The exit chord fired: terminate the process.
    pub exit: bool,
    /// The diagnostic chord fired: reprint the banner.
    pub banner: bool,
    /// The scan values to submit as synthetic Unicode input events, in
    /// order; empty when nothing is injected.
    pub inject: Vec<u16>,
}

/// The digit-typing escape hatch: with left Shift held, a decimal digit
/// passes through unconditionally, taking precedence over remapping.
pub open spec fn digit_escape(key: char, mods: ModifierSnapshot) -> bool {
    mods.left_shift && '0' <= key && key <= '9'
}

/// Whether one of the chords claims this event outright: the toggle and
/// diagnostic chords on any transition, the exit chord on its key-down.
pub open spec fn chord_handled(key: char, transition: Transition, mods: ModifierSnapshot) -> bool {
    ||| is_toggle_chord(mods.ctrl, mods.alt, key)
    ||| exit_fires(mods.ctrl, mods.alt, key, transition)
    ||| is_diagnostic_chord(mods.ctrl, mods.alt, key)
}

/// The substitute the mapping engine resolves for this event, if any.
pub open spec fn spec_substitute(
    m: KeyMapper,
    s: MapperState,
    key: char,
    mods: ModifierSnapshot,
) -> Option<char> {
    m.spec_map_key(key, mods.shift_down(), mods, s.enabled)
}

/// The state after the event: only the toggle state machine ever changes
/// it.
pub open spec fn spec_next_state(
    s: MapperState,
    key: char,
    transition: Transition,
    mods: ModifierSnapshot,
) -> MapperState {
    spec_toggle_step(s, mods.ctrl, mods.alt, key, transition)
}

/// The notifier call the event owes: the new enabled value, exactly when
/// the toggle edge fires.
pub open spec fn spec_notify(
    s: MapperState,
    key: char,
    transition: Transition,
    mods: ModifierSnapshot,
) -> Option<bool> {
    if toggle_fires(s, mods.ctrl, mods.alt, key, transition) {
        Some(!s.enabled)
    } else {
        None
    }
}

/// Whether the event terminates the process: the exit chord's key-down,
/// unless the toggle chord already claimed the event.
pub open spec fn spec_exit(key: char, transition: Transition, mods: ModifierSnapshot) -> bool {
    !is_toggle_chord(mods.ctrl, mods.alt, key) && exit_fires(mods.ctrl, mods.alt, key, transition)
}

/// Whether the event reprints the banner: the diagnostic chord's key-down,
/// unless an earlier chord claimed the event.
pub open spec fn spec_banner(key: char, transition: Transition, mods: ModifierSnapshot) -> bool {
    &&& !is_toggle_chord(mods.ctrl, mods.alt, key)
    &&& !exit_fires(mods.ctrl, mods.alt, key, transition)
    &&& is_diagnostic_chord(mods.ctrl, mods.alt, key)
    &&& transition is Down
}

/// The scan values the event injects: the substitute's encoding on the
/// key-down of a resolved key, and nothing otherwise. The matching key-up
/// is suppressed without a synthetic counterpart, so a substitution is a
/// single insertion, not a simulated press-and-release.
pub open spec fn spec_inject(
    m: KeyMapper,
    s: MapperState,
    key: char,
    transition: Transition,
    mods: ModifierSnapshot,
) -> Seq<u16> {
    if chord_handled(key, transition, mods) || digit_escape(key, mods) {
        Seq::empty()
    } else {
        match spec_substitute(m, s, key, mods) {
            Some(c) => if transition is Down {
                utf16_units(c as u32)
            } else {
                Seq::empty()
            },
            None => Seq::empty(),
        }
    }
}

/// The verdict for the event source: chords and resolved keys are
/// swallowed; the digit escape and unresolved keys pass through.
pub open spec fn spec_verdict(
    m: KeyMapper,
    s: MapperState,
    key: char,
    transition: Transition,
    mods: ModifierSnapshot,
) -> Verdict {
    if chord_handled(key, transition, mods) {
        Verdict::Suppress
    } else if digit_escape(key, mods) {
        Verdict::PassThrough
    } else if spec_substitute(m, s, key, mods) is Some {
        Verdict::Suppress
    } else {
        Verdict::PassThrough
    }
}

/// The digit escape takes precedence over remapping: with left Shift held
/// and a decimal digit as the source key, an event no chord claims passes
/// through and injects nothing, even when the table maps that digit.
pub proof fn lemma_digit_escape_passes_through(
    m: KeyMapper,
    s: MapperState,
    key: char,
    transition: Transition,
    mods: ModifierSnapshot,
)
    requires
        digit_escape(key, mods),
        !chord_handled(key, transition, mods),
    ensures
        spec_verdict(m, s, key, transition, mods) == Verdict::PassThrough,
        spec_inject(m, s, key, transition, mods) == Seq::<u16>::empty(),
{
}

/// The hook callback's whole decision for one key transition, in fixed
/// priority order: toggle chord, exit chord, diagnostic chord, digit
/// escape, then the mapping engine. Pure but for the two flags in `state`;
/// it never fails, so the re-entrant callback around it has nothing to
/// catch.
pub fn handle_key_event(
    mapper: &KeyMapper,
    state: &mut MapperState,
    key: char,
    transition: Transition,
    mods: &ModifierSnapshot,
) -> (r: HookOutcome)
    ensures
        *final(state) == spec_next_state(*old(state), key, transition, *mods),
        r.verdict == spec_verdict(*mapper, *old(state), key, transition, *mods),
        r.notify == spec_notify(*old(state), key, transition, *mods),
        r.exit == spec_exit(key, transition, *mods),
        r.banner == spec_banner(key, transition, *mods),
        r.inject@ == spec_inject(*mapper, *old(state), key, transition, *mods),
{
    let toggle = toggle_runes(state, mods.ctrl, mods.alt, key, transition);
    if toggle.handled {
        return HookOutcome {
            verdict: Verdict::Suppress,
            notify: toggle.notify,
            exit: false,
            banner: false,
            inject: Vec::new(),
        };
    }
    if process_exit_command(mods.ctrl, mods.alt, key, transition) {
        return HookOutcome {
            verdict: Verdict::Suppress,
            notify: None,
            exit: true,
            banner: false,
            inject: Vec::new(),
        };
    }
    if mods.ctrl && mods.alt && key == DIAGNOSTIC_KEY {
        return HookOutcome {
            verdict: Verdict::Suppress,
            notify: None,
            exit: false,
            banner: transition == Transition::Down,
            inject: Vec::new(),
        };
    }
    if mods.left_shift && '0' <= key && key <= '9' {
        return HookOutcome {
            verdict: Verdict::PassThrough,
            notify: None,
            exit: false,
            banner: false,
            inject: Vec::new(),
        };
    }
    let shift = mods.is_shift_down();
    match mapper.map_key(key, shift, mods, state.enabled) {
        Some(substitute) => {
            let inject = if transition == Transition::Down {
                synthesize_units(substitute)
            } else {
                Vec::new()
            };
            HookOutcome {
                verdict: Verdict::Suppress,
                notify: None,
                exit: false,
                banner: false,
                inject,
            }
        },
        None => HookOutcome {
            verdict: Verdict::PassThrough,
            notify: None,
            exit: false,
            banner: false,
            inject: Vec::new(),
        },
    }
}

} // verus!
