//! The render loop's decisions: what to do on each timer tick or input event.
use crate::clock::NANOS_PER_SEC;
use vstd::prelude::*;

verus! {

/// The default number of render ticks per second.
pub const DEFAULT_TICK_RATE_HZ: u64 = 60;

/// A key as the render loop sees it.
#[derive(Clone, Copy, Debug, PartialEq, Eq, Structural)]
pub enum Key {
    Esc,
    Char(char),
    Other,
}

/// An event from the input source.
#[derive(Clone, Copy, Debug, PartialEq, Eq, Structural)]
pub enum InputEvent {
    Key(Key),
    Other,
}

/// What the render loop waits on: its timer firing, or an input event.
#[derive(Clone, Copy, Debug, PartialEq, Eq, Structural)]
pub enum LoopEvent {
    Tick,
    Input(InputEvent),
}

/// The render loop's state. `Terminated` is final.
#[derive(Clone, Copy, Debug, PartialEq, Eq, Structural)]
pub enum LoopState {
    Running,
    Terminated,
}

/// What the render loop does after an event.
#[derive(Clone, Copy, Debug, PartialEq, Eq, Structural)]
pub enum LoopAction {
    /// Take a snapshot of the store and draw it.
    Render,
    /// Keep waiting for the next event.
    Wait,
    /// Stop: the loop has ended.
    Stop,
}

/// The quit signal is the escape key.
pub open spec fn is_quit_spec(e: InputEvent) -> bool {
    e == InputEvent::Key(Key::Esc)
}

/// Whether the input event is the quit signal.
pub fn is_quit(e: &InputEvent) -> (r: bool)
    ensures
        r == is_quit_spec(*e),
{
    matches!(e, InputEvent::Key(Key::Esc))
}

/// The next state and action after `event` in `state`.
pub open spec fn step_spec(state: LoopState, event: LoopEvent) -> (LoopState, LoopAction) {
    match state {
        LoopState::Terminated => (LoopState::Terminated, LoopAction::Stop),
        LoopState::Running => match event {
            LoopEvent::Tick => (LoopState::Running, LoopAction::Render),
            LoopEvent::Input(e) => if is_quit_spec(e) {
                (LoopState::Terminated, LoopAction::Stop)
            } else {
                (LoopState::Running, LoopAction::Wait)
            },
        },
    }
}

/// Handles one event: a tick renders, the quit signal terminates, any other
/// input is ignored; once terminated, nothing more happens.
pub fn step(state: LoopState, event: LoopEvent) -> (r: (LoopState, LoopAction))
    ensures
        r == step_spec(state, event),
{
    match state {
        LoopState::Terminated => (LoopState::Terminated, LoopAction::Stop),
        LoopState::Running => match event {
            LoopEvent::Tick => (LoopState::Running, LoopAction::Render),
            LoopEvent::Input(e) => if is_quit(&e) {
                (LoopState::Terminated, LoopAction::Stop)
            } else {
                (LoopState::Running, LoopAction::Wait)
            },
        },
    }
}

/// The state after handling `events` in order, starting in `state`.
pub open spec fn state_after(state: LoopState, events: Seq<LoopEvent>) -> LoopState
    decreases events.len(),
{
    if events.len() == 0 {
        state
    } else {
        state_after(step_spec(state, events[0]).0, events.drop_first())
    }
}

/// Some event of `events`, handled in order from `state`, leads to a render.
pub open spec fn renders_during(state: LoopState, events: Seq<LoopEvent>) -> bool
    decreases events.len(),
{
    if events.len() == 0 {
        false
    } else {
        step_spec(state, events[0]).1 == LoopAction::Render || renders_during(
            step_spec(state, events[0]).0,
            events.drop_first(),
        )
    }
}

/// Once the quit signal has been handled, whatever events follow, the loop
/// stays terminated and renders nothing more.
pub proof fn lemma_quit_is_final(e: InputEvent, rest: Seq<LoopEvent>)
    requires
        is_quit_spec(e),
    ensures
        step_spec(LoopState::Running, LoopEvent::Input(e)) == (LoopState::Terminated, LoopAction::Stop),
        state_after(LoopState::Terminated, rest) == LoopState::Terminated,
        !renders_during(LoopState::Terminated, rest),
    decreases rest.len(),
{
    if rest.len() > 0 {
        lemma_quit_is_final(e, rest.drop_first());
    }
}

/// The time between render ticks, in nanoseconds, for `rate_hz` ticks per second.
pub fn tick_period_nanos(rate_hz: u64) -> (r: u64)
    requires
        rate_hz > 0,
    ensures
        r == NANOS_PER_SEC / rate_hz,
{
    NANOS_PER_SEC / rate_hz
}

} // verus!
