//! The power-event loop as a pure state machine: from the current
//! loop state and an observed event to the next state and the action
//! the surrounding process must perform.
//!
//! The surrounding process owns the bus connection, the subscription
//! and the cancellation signal; it feeds each outcome back in as a
//! `LoopEvent` and performs whatever `LoopAction` comes out.

use vstd::prelude::*;
use crate::policy::{spec_bias_for, spec_from_read, bias_for, from_read, BIAS_MAX};

verus! {

/// Where the loop stands.
#[derive(Clone, Copy, Debug, PartialEq, Eq)]
pub enum LoopState {
    /// Establishing the connection and the subscription.
    Connecting,
    /// Connected; the initial value of the power property is being read.
    ApplyInitial,
    /// Suspended until the subscription yields an event or is closed.
    Waiting,
    /// A change fired; the new value is being read.
    ApplyChange,
    /// The loop has ended.
    Stopped,
}

/// What the outside world reports to the loop.
#[derive(Clone, Copy, Debug, PartialEq, Eq)]
pub enum LoopEvent {
    /// The connection and the subscription were established.
    Connected,
    /// The connection could not be established.
    ConnectFailed,
    /// A read of the power property finished; `None` means it failed.
    Read(Option<bool>),
    /// The subscription fired: the property changed.
    Changed,
    /// The subscription stream ended.
    StreamClosed,
    /// The process was asked to shut down.
    Cancelled,
}

/// What the surrounding process must do next.
#[derive(Clone, Copy, Debug, PartialEq, Eq)]
pub enum LoopAction {
    /// Read the power property and report the outcome.
    ReadPower,
    /// Issue one full write batch for this bias, then wait.
    ApplyBias(u8),
    /// Nothing to write; wait for the next event.
    Wait,
    /// Exit cleanly.
    ExitOk,
    /// Report a fatal startup error and exit with failure.
    ExitFatal,
}

/// The loop's transition function. Cancellation ends the loop cleanly
/// from every state; a failed connection is the one fatal exit; a read
/// outcome is mapped through the policy, an unknown value producing no
/// write batch; an event that cannot arrive in a state is ignored.
pub open spec fn spec_step(state: LoopState, event: LoopEvent) -> (LoopState, LoopAction) {
    match (state, event) {
        (_, LoopEvent::Cancelled) => (LoopState::Stopped, LoopAction::ExitOk),
        (LoopState::Connecting, LoopEvent::Connected) => (
            LoopState::ApplyInitial,
            LoopAction::ReadPower,
        ),
        (LoopState::Connecting, LoopEvent::ConnectFailed) => (
            LoopState::Stopped,
            LoopAction::ExitFatal,
        ),
        (LoopState::ApplyInitial, LoopEvent::Read(read)) => spec_apply(read),
        (LoopState::ApplyChange, LoopEvent::Read(read)) => spec_apply(read),
        (LoopState::Waiting, LoopEvent::Changed) => (
            LoopState::ApplyChange,
            LoopAction::ReadPower,
        ),
        (LoopState::Waiting, LoopEvent::StreamClosed) => (LoopState::Stopped, LoopAction::ExitOk),
        (_, _) => (state, LoopAction::Wait),
    }
}

/// The step taken once a read outcome is in hand: the loop always
/// proceeds to waiting, writing a batch exactly when the policy names
/// a bias.
pub open spec fn spec_apply(read: Option<bool>) -> (LoopState, LoopAction) {
    match spec_bias_for(spec_from_read(read)) {
        Some(bias) => (LoopState::Waiting, LoopAction::ApplyBias(bias)),
        None => (LoopState::Waiting, LoopAction::Wait),
    }
}

/// Performs one transition of the power-event loop.
pub fn step(state: LoopState, event: LoopEvent) -> (r: (LoopState, LoopAction))
    ensures
        r == spec_step(state, event),
{
    match (state, event) {
        (_, LoopEvent::Cancelled) => (LoopState::Stopped, LoopAction::ExitOk),
        (LoopState::Connecting, LoopEvent::Connected) => (
            LoopState::ApplyInitial,
            LoopAction::ReadPower,
        ),
        (LoopState::Connecting, LoopEvent::ConnectFailed) => (
            LoopState::Stopped,
            LoopAction::ExitFatal,
        ),
        (LoopState::ApplyInitial, LoopEvent::Read(read)) => apply_read(read),
        (LoopState::ApplyChange, LoopEvent::Read(read)) => apply_read(read),
        (LoopState::Waiting, LoopEvent::Changed) => (
            LoopState::ApplyChange,
            LoopAction::ReadPower,
        ),
        (LoopState::Waiting, LoopEvent::StreamClosed) => (LoopState::Stopped, LoopAction::ExitOk),
        (_, _) => (state, LoopAction::Wait),
    }
}

/// Maps one read outcome to the loop's next state and action.
fn apply_read(read: Option<bool>) -> (r: (LoopState, LoopAction))
    ensures
        r == spec_apply(read),
{
    match bias_for(from_read(read)) {
        Some(bias) => (LoopState::Waiting, LoopAction::ApplyBias(bias)),
        None => (LoopState::Waiting, LoopAction::Wait),
    }
}

/// Cancellation is benign: from every state it ends the loop at once,
/// and the exit it calls for is the clean one.
pub proof fn lemma_cancel_exits_clean(state: LoopState)
    ensures
        spec_step(state, LoopEvent::Cancelled) == (LoopState::Stopped, LoopAction::ExitOk),
{
}

/// The only fatal exit is a failed connection at startup: no other
/// state and event call for `ExitFatal`.
pub proof fn lemma_fatal_only_at_connect(state: LoopState, event: LoopEvent)
    ensures
        spec_step(state, event).1 == LoopAction::ExitFatal <==> (state == LoopState::Connecting
            && event == LoopEvent::ConnectFailed),
{
}

/// A read outcome always leads to the waiting state, and it yields a
/// write batch exactly when the policy names a bias for it: a failed
/// read issues no batch at all.
pub proof fn lemma_read_follows_policy(state: LoopState, read: Option<bool>)
    requires
        state == LoopState::ApplyInitial || state == LoopState::ApplyChange,
    ensures
        spec_step(state, LoopEvent::Read(read)).0 == LoopState::Waiting,
        spec_bias_for(spec_from_read(read)) matches Some(bias) ==> spec_step(
            state,
            LoopEvent::Read(read),
        ).1 == LoopAction::ApplyBias(bias),
        spec_bias_for(spec_from_read(read)) is None ==> spec_step(state, LoopEvent::Read(read)).1
            == LoopAction::Wait,
{
}

/// Every write batch the loop calls for carries a bias in the vendor
/// range, so a batch can always be planned for it.
pub proof fn lemma_action_bias_in_range(state: LoopState, event: LoopEvent, bias: u8)
    ensures
        spec_step(state, event).1 == LoopAction::ApplyBias(bias) ==> bias <= BIAS_MAX,
{
}

/// A write batch is only ever called for by a read outcome, and the
/// bias it carries is the one the policy names for that outcome.
pub proof fn lemma_batch_only_from_policy(state: LoopState, event: LoopEvent, bias: u8)
    ensures
        spec_step(state, event).1 == LoopAction::ApplyBias(bias) ==> exists|read: Option<bool>|
            event == LoopEvent::Read(read) && spec_bias_for(spec_from_read(read)) == Some(bias),
{
    if spec_step(state, event).1 == LoopAction::ApplyBias(bias) {
        if let LoopEvent::Read(read) = event {
            assert(event == LoopEvent::Read(read) && spec_bias_for(spec_from_read(read)) == Some(
                bias,
            ));
        }
    }
}

} // verus!
