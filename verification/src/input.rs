//! The keyboard side: the fixed key-to-command mapping and the input
//! listener's state machine. The listener itself blocks on a key stream
//! outside the library; each key (or the end of the stream) is handed in
//! here as an event, and the returned effect says what to do.

use vstd::prelude::*;

verus! {

/// The commands the stopwatch engine accepts from the keyboard.
#[derive(Clone, Copy, PartialEq, Eq, Structural, Debug)]
pub enum Command {
    SplitOrStart,
    SkipSplit,
    Reset,
    PreviousComparison,
    TogglePauseOrStart,
    NextComparison,
    UndoSplit,
}

/// What a single key means.
#[derive(Clone, Copy, PartialEq, Eq, Structural, Debug)]
pub enum KeyAction {
    Dispatch(Command),
    Quit,
    Ignore,
}

/// The fixed keyboard mapping: digits drive the engine, `q` quits, every
/// other key does nothing.
pub open spec fn action_of(c: char) -> KeyAction {
    if c == '1' {
        KeyAction::Dispatch(Command::SplitOrStart)
    } else if c == '2' {
        KeyAction::Dispatch(Command::SkipSplit)
    } else if c == '3' {
        KeyAction::Dispatch(Command::Reset)
    } else if c == '4' {
        KeyAction::Dispatch(Command::PreviousComparison)
    } else if c == '5' {
        KeyAction::Dispatch(Command::TogglePauseOrStart)
    } else if c == '6' {
        KeyAction::Dispatch(Command::NextComparison)
    } else if c == '8' {
        KeyAction::Dispatch(Command::UndoSplit)
    } else if c == 'q' {
        KeyAction::Quit
    } else {
        KeyAction::Ignore
    }
}

/// Maps one key to its action.
pub fn map_key(c: char) -> (r: KeyAction)
    ensures
        r == action_of(c),
{
    match c {
        '1' => KeyAction::Dispatch(Command::SplitOrStart),
        '2' => KeyAction::Dispatch(Command::SkipSplit),
        '3' => KeyAction::Dispatch(Command::Reset),
        '4' => KeyAction::Dispatch(Command::PreviousComparison),
        '5' => KeyAction::Dispatch(Command::TogglePauseOrStart),
        '6' => KeyAction::Dispatch(Command::NextComparison),
        '8' => KeyAction::Dispatch(Command::UndoSplit),
        'q' => KeyAction::Quit,
        _ => KeyAction::Ignore,
    }
}

/// The listener's states: blocked on the next key, applying a command, or
/// done with the current stream.
#[derive(Clone, Copy, PartialEq, Eq, Structural, Debug)]
pub enum ListenerState {
    AwaitingKey,
    Dispatching,
    Exhausted,
}

/// What the listener observes: a key, the engine reporting a command as
/// applied, or the end of the key stream.
#[derive(Clone, Copy, PartialEq, Eq, Structural, Debug)]
pub enum InputEvent {
    Key(char),
    CommandApplied,
    StreamEnd,
}

/// What the caller must do after a step: apply a command under the engine's
/// exclusive lock, emit the one quit notification, or nothing.
#[derive(Clone, Copy, PartialEq, Eq, Structural, Debug)]
pub enum InputEffect {
    Apply(Command),
    EmitQuit,
    Skip,
}

/// One transition of the listener: only the quit key or the end of the
/// stream lead to a quit notification; command keys lead through the
/// dispatching state and back.
pub open spec fn listener_next(s: ListenerState, e: InputEvent) -> (ListenerState, InputEffect) {
    match s {
        ListenerState::AwaitingKey => match e {
            InputEvent::Key(c) => match action_of(c) {
                KeyAction::Dispatch(cmd) => (ListenerState::Dispatching, InputEffect::Apply(cmd)),
                KeyAction::Quit => (ListenerState::Exhausted, InputEffect::EmitQuit),
                KeyAction::Ignore => (ListenerState::AwaitingKey, InputEffect::Skip),
            },
            InputEvent::CommandApplied => (ListenerState::AwaitingKey, InputEffect::Skip),
            InputEvent::StreamEnd => (ListenerState::Exhausted, InputEffect::EmitQuit),
        },
        ListenerState::Dispatching => match e {
            InputEvent::CommandApplied => (ListenerState::AwaitingKey, InputEffect::Skip),
            InputEvent::Key(_) => (ListenerState::Dispatching, InputEffect::Skip),
            InputEvent::StreamEnd => (ListenerState::Dispatching, InputEffect::Skip),
        },
        ListenerState::Exhausted => (ListenerState::Exhausted, InputEffect::Skip),
    }
}

/// Performs one listener transition.
pub fn listener_step(s: ListenerState, e: InputEvent) -> (r: (ListenerState, InputEffect))
    ensures
        r == listener_next(s, e),
{
    match s {
        ListenerState::AwaitingKey => match e {
            InputEvent::Key(c) => match map_key(c) {
                KeyAction::Dispatch(cmd) => (ListenerState::Dispatching, InputEffect::Apply(cmd)),
                KeyAction::Quit => (ListenerState::Exhausted, InputEffect::EmitQuit),
                KeyAction::Ignore => (ListenerState::AwaitingKey, InputEffect::Skip),
            },
            InputEvent::CommandApplied => (ListenerState::AwaitingKey, InputEffect::Skip),
            InputEvent::StreamEnd => (ListenerState::Exhausted, InputEffect::EmitQuit),
        },
        ListenerState::Dispatching => match e {
            InputEvent::CommandApplied => (ListenerState::AwaitingKey, InputEffect::Skip),
            InputEvent::Key(_) => (ListenerState::Dispatching, InputEffect::Skip),
            InputEvent::StreamEnd => (ListenerState::Dispatching, InputEffect::Skip),
        },
        ListenerState::Exhausted => (ListenerState::Exhausted, InputEffect::Skip),
    }
}

/// A rank on the states that falls from dispatching back to awaiting a key,
/// used as the tiebreaker of the cycle recursion.
pub open spec fn state_rank(s: ListenerState) -> nat {
    match s {
        ListenerState::Dispatching => 1,
        _ => 0,
    }
}

/// One activation of the listener's inner read cycle, run to its end over
/// the keys the stream will yield: the commands applied, and how many quit
/// notifications come out. A quit key stops the cycle at once; an exhausted
/// stream ends it with a quit notification of its own.
pub open spec fn cycle_run(s: ListenerState, keys: Seq<char>) -> (Seq<Command>, nat)
    decreases keys.len(), state_rank(s),
{
    match s {
        ListenerState::Exhausted => (Seq::empty(), 0),
        ListenerState::Dispatching => cycle_run(ListenerState::AwaitingKey, keys),
        ListenerState::AwaitingKey => {
            if keys.len() == 0 {
                (Seq::empty(), 1)
            } else {
                match action_of(keys[0]) {
                    KeyAction::Quit => (Seq::empty(), 1),
                    KeyAction::Dispatch(cmd) => {
                        let rest = cycle_run(ListenerState::Dispatching, keys.drop_first());
                        (seq![cmd] + rest.0, rest.1)
                    },
                    KeyAction::Ignore => cycle_run(ListenerState::AwaitingKey, keys.drop_first()),
                }
            }
        },
    }
}

/// Every activation of the inner read cycle emits exactly one quit
/// notification, whatever keys the stream yields and however it ends.
pub proof fn lemma_cycle_emits_one_quit(keys: Seq<char>)
    ensures
        cycle_run(ListenerState::AwaitingKey, keys).1 == 1,
    decreases keys.len(),
{
    if keys.len() != 0 {
        match action_of(keys[0]) {
            KeyAction::Quit => {},
            KeyAction::Dispatch(_) => {
                lemma_cycle_emits_one_quit(keys.drop_first());
                assert(cycle_run(ListenerState::Dispatching, keys.drop_first()) == cycle_run(
                    ListenerState::AwaitingKey,
                    keys.drop_first(),
                ));
            },
            KeyAction::Ignore => {
                lemma_cycle_emits_one_quit(keys.drop_first());
            },
        }
    }
}

/// The cycle recursion follows the machine's own transitions: from awaiting
/// a key, the step on the next key either ends the cycle with its one quit
/// notification, contributes the applied command at the head, or changes
/// nothing, and the rest of the cycle continues from the step's state.
pub proof fn lemma_cycle_follows_steps(keys: Seq<char>)
    requires
        keys.len() > 0,
    ensures
        ({
            let step = listener_next(ListenerState::AwaitingKey, InputEvent::Key(keys[0]));
            let whole = cycle_run(ListenerState::AwaitingKey, keys);
            let rest = cycle_run(step.0, keys.drop_first());
            match step.1 {
                InputEffect::EmitQuit => whole == (Seq::<Command>::empty(), 1nat),
                InputEffect::Apply(cmd) => whole == (seq![cmd] + rest.0, rest.1),
                InputEffect::Skip => whole == rest,
            }
        }),
{
}

/// The quit key never applies a command: its step is the quit notification
/// itself, and the cycle records no command for it.
pub proof fn lemma_quit_key_applies_nothing(c: char, keys: Seq<char>)
    requires
        action_of(c) == KeyAction::Quit,
    ensures
        listener_next(ListenerState::AwaitingKey, InputEvent::Key(c)).1 == InputEffect::EmitQuit,
        cycle_run(ListenerState::AwaitingKey, seq![c] + keys).0 == Seq::<Command>::empty(),
{
    assert((seq![c] + keys)[0] == c);
}

} // verus!
