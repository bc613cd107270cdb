//! The session controller: the menu answer read after a sequence is
//! displayed, and the state machine of the two nested prompt loops.

use vstd::prelude::*;
use crate::options::Options;

verus! {

/// The decision taken from the single menu keystroke.
#[derive(Copy, Clone, Debug, PartialEq, Eq, Structural)]
pub enum Answer {
    Recreate,
    StartOver,
    Quit,
    ParseErr,
}

impl Answer {
    /// The menu mapping: `r` regenerates, `s` starts over, `q` quits, and
    /// any other key is unrecognized.
    pub open spec fn spec_find(c: char) -> Answer {
        if c == 'r' {
            Answer::Recreate
        } else if c == 's' {
            Answer::StartOver
        } else if c == 'q' {
            Answer::Quit
        } else {
            Answer::ParseErr
        }
    }

    /// Maps the menu keystroke to its decision.
    pub fn find(c: char) -> (r: Answer)
        ensures
            r == Answer::spec_find(c),
    {
        match c {
            'r' => Answer::Recreate,
            's' => Answer::StartOver,
            'q' => Answer::Quit,
            _ => Answer::ParseErr,
        }
    }
}

/// The controller's state: waiting for a configuration, showing results
/// for one, or finished. `show_options` records whether the instruction
/// lines are still owed for the current configuration.
#[derive(Copy, Clone, Debug, PartialEq, Eq, Structural)]
pub enum SessionState {
    AwaitingOptions,
    ShowingResult { options: Options, show_options: bool },
    Terminated,
}

/// The stored options of a state, if it has any.
pub open spec fn state_options(s: SessionState) -> Option<Options> {
    match s {
        SessionState::ShowingResult { options, .. } => Some(options),
        _ => None,
    }
}

/// The initial state: no configuration collected yet.
pub fn session_start() -> (r: SessionState)
    ensures
        r == SessionState::AwaitingOptions,
{
    SessionState::AwaitingOptions
}

/// A freshly collected configuration moves the session to showing
/// results, with the instruction lines owed once.
pub fn submit_options(options: Options) -> (r: SessionState)
    ensures
        r == (SessionState::ShowingResult { options, show_options: true }),
{
    SessionState::ShowingResult { options, show_options: true }
}

/// The step a menu answer causes: regenerate keeps the same options and
/// stops re-showing the instructions, start-over discards them, and quit
/// or an unrecognized answer ends the session. States not showing a
/// result are unaffected.
pub open spec fn spec_menu_step(s: SessionState, answer: Answer) -> SessionState {
    match s {
        SessionState::ShowingResult { options, show_options } => match answer {
            Answer::Recreate => SessionState::ShowingResult { options, show_options: false },
            Answer::StartOver => SessionState::AwaitingOptions,
            Answer::Quit => SessionState::Terminated,
            Answer::ParseErr => SessionState::Terminated,
        },
        _ => s,
    }
}

/// Applies a menu answer. A failed keystroke read is handed in as
/// `ParseErr`, which ends the session like an unrecognized key.
pub fn on_menu_answer(s: SessionState, answer: Answer) -> (r: SessionState)
    ensures
        r == spec_menu_step(s, answer),
{
    match s {
        SessionState::ShowingResult { options, show_options: _ } => match answer {
            Answer::Recreate => SessionState::ShowingResult { options, show_options: false },
            Answer::StartOver => SessionState::AwaitingOptions,
            Answer::Quit => SessionState::Terminated,
            Answer::ParseErr => SessionState::Terminated,
        },
        _ => s,
    }
}

/// Applies the menu keystroke read after a display.
pub fn on_menu_key(s: SessionState, key: char) -> (r: SessionState)
    ensures
        r == spec_menu_step(s, Answer::spec_find(key)),
{
    on_menu_answer(s, Answer::find(key))
}

/// The state after a whole sequence of menu keystrokes, applied in order.
pub open spec fn spec_run_keys(s: SessionState, keys: Seq<char>) -> SessionState
    decreases keys.len(),
{
    if keys.len() == 0 {
        s
    } else {
        spec_run_keys(spec_menu_step(s, Answer::spec_find(keys[0])), keys.drop_first())
    }
}

/// Repeated regenerate keystrokes never mutate the stored options: after
/// any sequence of keys that all map to `Recreate`, the session is still
/// showing results for the very same options.
pub proof fn lemma_recreate_preserves_options(options: Options, show: bool, keys: Seq<char>)
    requires
        forall|i: int| 0 <= i < keys.len() ==> Answer::spec_find(#[trigger] keys[i]) == Answer::Recreate,
    ensures
        ({
            let sn = spec_run_keys(
                SessionState::ShowingResult { options, show_options: show },
                keys,
            );
            sn is ShowingResult && state_options(sn) == Some(options)
        }),
    decreases keys.len(),
{
    if keys.len() > 0 {
        let s0 = SessionState::ShowingResult { options, show_options: show };
        assert(Answer::spec_find(keys[0]) == Answer::Recreate);
        assert(spec_menu_step(s0, Answer::spec_find(keys[0])) == (SessionState::ShowingResult {
            options,
            show_options: false,
        }));
        lemma_recreate_preserves_options(options, false, keys.drop_first());
    }
}

} // verus!
