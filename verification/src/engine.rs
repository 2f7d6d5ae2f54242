//! The stopwatch engine handle. The engine itself — timing, split
//! semantics, comparisons — is livesplit_core's business and stays a black
//! box; this module declares its types, names what a run holds, and wraps
//! the handful of calls the dashboard makes: building a run, creating the
//! timer, and the fire-and-forget keyboard commands.

use vstd::prelude::*;
use crate::input::{Command, KeyAction, action_of, map_key};

verus! {

#[verifier::external_type_specification]
#[verifier::external_body]
pub struct ExRun(livesplit_core::Run);

#[verifier::external_type_specification]
#[verifier::external_body]
pub struct ExSegment(livesplit_core::Segment);

#[verifier::external_type_specification]
#[verifier::external_body]
pub struct ExTimer(livesplit_core::Timer);

/// The game name a run holds.
pub uninterp spec fn run_game_name(r: livesplit_core::Run) -> Seq<char>;

/// The category name a run holds.
pub uninterp spec fn run_category_name(r: livesplit_core::Run) -> Seq<char>;

/// The names of a run's segments, in their order.
pub uninterp spec fn run_segment_names(r: livesplit_core::Run) -> Seq<Seq<char>>;

/// The name a segment holds.
pub uninterp spec fn segment_name(s: livesplit_core::Segment) -> Seq<char>;

/// Why the engine could not be created.
#[derive(Clone, Copy, PartialEq, Eq, Structural, Debug)]
pub enum EngineError {
    EmptyRun,
}

/// Relies on `livesplit_core::Run::new`: a run with no segments and with
/// empty game and category names.
#[verifier::external_body]
pub(crate) fn run_new() -> (r: livesplit_core::Run)
    ensures
        run_game_name(r) == Seq::<char>::empty(),
        run_category_name(r) == Seq::<char>::empty(),
        run_segment_names(r) == Seq::<Seq<char>>::empty(),
{
    livesplit_core::Run::new()
}

/// Relies on `livesplit_core::Run::set_game_name`: stores exactly the given
/// name and touches neither the category nor the segments.
#[verifier::external_body]
pub(crate) fn run_set_game_name(r: &mut livesplit_core::Run, name: &str)
    ensures
        run_game_name(*final(r)) == name@,
        run_category_name(*final(r)) == run_category_name(*old(r)),
        run_segment_names(*final(r)) == run_segment_names(*old(r)),
{
    r.set_game_name(name)
}

/// Relies on `livesplit_core::Run::set_category_name`: stores exactly the
/// given name and touches neither the game name nor the segments.
#[verifier::external_body]
pub(crate) fn run_set_category_name(r: &mut livesplit_core::Run, name: &str)
    ensures
        run_category_name(*final(r)) == name@,
        run_game_name(*final(r)) == run_game_name(*old(r)),
        run_segment_names(*final(r)) == run_segment_names(*old(r)),
{
    r.set_category_name(name)
}

/// Relies on `livesplit_core::Segment::new`: a segment named exactly as
/// given.
#[verifier::external_body]
pub(crate) fn segment_new(name: &str) -> (r: livesplit_core::Segment)
    ensures
        segment_name(r) == name@,
{
    livesplit_core::Segment::new(name)
}

/// Relies on `livesplit_core::Run::push_segment`: appends the segment to
/// the end of the run's segment list and touches nothing else.
#[verifier::external_body]
pub(crate) fn run_push_segment(r: &mut livesplit_core::Run, s: livesplit_core::Segment)
    ensures
        run_segment_names(*final(r)) == run_segment_names(*old(r)).push(segment_name(s)),
        run_game_name(*final(r)) == run_game_name(*old(r)),
        run_category_name(*final(r)) == run_category_name(*old(r)),
{
    r.push_segment(s)
}

/// Relies on `livesplit_core::Timer::new`: creation succeeds exactly when
/// the run has at least one segment.
#[verifier::external_body]
fn timer_new(run: livesplit_core::Run) -> (r: Option<livesplit_core::Timer>)
    ensures
        r is Some <==> run_segment_names(run).len() > 0,
{
    match livesplit_core::Timer::new(run) {
        Ok(t) => Some(t),
        Err(_) => None,
    }
}

/// Relies on `livesplit_core::Timer::split_or_start`: starts the attempt or
/// records a split; nothing is claimed of the engine's state.
#[verifier::external_body]
fn timer_split_or_start(t: &mut livesplit_core::Timer) {
    t.split_or_start()
}

/// Relies on `livesplit_core::Timer::skip_split`.
#[verifier::external_body]
fn timer_skip_split(t: &mut livesplit_core::Timer) {
    t.skip_split()
}

/// Relies on `livesplit_core::Timer::reset`.
#[verifier::external_body]
fn timer_reset(t: &mut livesplit_core::Timer, update_splits: bool) {
    t.reset(update_splits)
}

/// Relies on `livesplit_core::Timer::switch_to_previous_comparison`.
#[verifier::external_body]
fn timer_switch_to_previous_comparison(t: &mut livesplit_core::Timer) {
    t.switch_to_previous_comparison()
}

/// Relies on `livesplit_core::Timer::toggle_pause_or_start`.
#[verifier::external_body]
fn timer_toggle_pause_or_start(t: &mut livesplit_core::Timer) {
    t.toggle_pause_or_start()
}

/// Relies on `livesplit_core::Timer::switch_to_next_comparison`.
#[verifier::external_body]
fn timer_switch_to_next_comparison(t: &mut livesplit_core::Timer) {
    t.switch_to_next_comparison()
}

/// Relies on `livesplit_core::Timer::undo_split`.
#[verifier::external_body]
fn timer_undo_split(t: &mut livesplit_core::Timer) {
    t.undo_split()
}

/// The built-in run used when no splits file is given: fixed game and
/// category names and five fixed segment names.
pub fn default_run() -> (r: livesplit_core::Run)
    ensures
        run_game_name(r) == "Livesplit Terminal"@,
        run_category_name(r) == "Any%"@,
        run_segment_names(r) =~= seq![
            "Split 1"@,
            "Split 2"@,
            "Split 3"@,
            "Split 4"@,
            "Complete!"@,
        ],
{
    let mut run = run_new();
    run_set_game_name(&mut run, "Livesplit Terminal");
    run_set_category_name(&mut run, "Any%");
    run_push_segment(&mut run, segment_new("Split 1"));
    run_push_segment(&mut run, segment_new("Split 2"));
    run_push_segment(&mut run, segment_new("Split 3"));
    run_push_segment(&mut run, segment_new("Split 4"));
    run_push_segment(&mut run, segment_new("Complete!"));
    run
}

/// Creates the stopwatch for a run. It fails exactly when the run has no
/// segments, since the engine needs a final segment to store the final
/// time in.
pub fn create_timer(run: livesplit_core::Run) -> (r: Result<
    livesplit_core::Timer,
    EngineError,
>)
    ensures
        r is Ok <==> run_segment_names(run).len() > 0,
{
    match timer_new(run) {
        Some(t) => Ok(t),
        None => Err(EngineError::EmptyRun),
    }
}

/// Applies one keyboard command to the engine, under whatever exclusive
/// access the caller holds. The engine's reaction is its own state
/// machine's business and nothing is claimed of it.
pub fn apply_command(t: &mut livesplit_core::Timer, c: Command) {
    match c {
        Command::SplitOrStart => timer_split_or_start(t),
        Command::SkipSplit => timer_skip_split(t),
        Command::Reset => timer_reset(t, true),
        Command::PreviousComparison => timer_switch_to_previous_comparison(t),
        Command::TogglePauseOrStart => timer_toggle_pause_or_start(t),
        Command::NextComparison => timer_switch_to_next_comparison(t),
        Command::UndoSplit => timer_undo_split(t),
    }
}

/// Handles one key: applies the mapped command, if there is one, and says
/// whether the key was the quit key. The quit key and unmapped keys reach
/// no command.
pub fn handle_key(t: &mut livesplit_core::Timer, c: char) -> (quit: bool)
    ensures
        quit == (action_of(c) == KeyAction::Quit),
{
    match map_key(c) {
        KeyAction::Dispatch(cmd) => {
            apply_command(t, cmd);
            false
        },
        KeyAction::Quit => true,
        KeyAction::Ignore => false,
    }
}

} // verus!
