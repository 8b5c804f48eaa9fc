//! The sequential control loop as a state machine.
//!
//! The loop outside the library performs one action at a time — logging
//! in, placing a bet over the network, settling, sleeping — and hands the
//! outcome back as an event. Which action follows which event is decided
//! here: rate limits cool down for the advertised seconds, an empty reply
//! skips the iteration, and every other error halts the loop gracefully.

use vstd::prelude::*;

use crate::sites::{BetError, BetResult};

verus! {

/// The fixed delay between iterations, in milliseconds.
pub const ITERATION_DELAY_MS: u64 = 100;

/// Where the loop stands.
#[derive(Debug)]
pub enum OrchestratorState {
    /// Nothing has happened yet; the next action is the single login.
    Init,
    /// The session is authenticated and the next bet may be placed.
    Betting,
    /// A settled bet is being booked into strategy and history.
    Settling,
    /// The loop is over; the error that ended it, if one did.
    Halted(Option<BetError>),
}

/// What the loop reports back after performing an action.
pub enum OrchestratorEvent {
    /// The loop is starting.
    Start,
    /// The login call succeeded.
    LoginSucceeded,
    /// The login call failed; fatal.
    LoginRejected(BetError),
    /// A bet settled with this canonical result.
    BetSettled(BetResult),
    /// A bet could not be placed.
    BetFailed(BetError),
    /// Settling — the win/loss callbacks and the history push — is done.
    SettlingDone,
    /// An external stop was requested; honoured only here, at an
    /// iteration boundary.
    StopRequested,
}

/// What the loop must do next.
pub enum OrchestratorAction {
    /// Perform the single login call.
    Login,
    /// Obtain a prediction and place one bet.
    PlaceBet,
    /// Book the settled result as a win.
    SettleWin(BetResult),
    /// Book the settled result as a loss.
    SettleLose(BetResult),
    /// Sleep this many milliseconds, then place the next bet.
    Sleep(u64),
    /// Stop the loop.
    Halt,
}

/// How the orchestrator treats a bet error.
pub open spec fn spec_error_disposition(e: BetError) -> OrchestratorAction {
    match e {
        BetError::EmptyReply => OrchestratorAction::Sleep(ITERATION_DELAY_MS),
        BetError::RateLimited(secs) => OrchestratorAction::Sleep(
            if secs > 0xFFFFFFFFFFFFF {
                0xFFFFFFFFFFFFF000u64
            } else {
                (secs * 1000) as u64
            },
        ),
        _ => OrchestratorAction::Halt,
    }
}

/// Whether an error lets the loop continue: only an empty reply and a
/// rate limit are recoverable; everything else is fatal.
pub open spec fn spec_error_recoverable(e: BetError) -> bool {
    e is EmptyReply || e is RateLimited
}

/// One transition of the loop: the next state and the next action for a
/// state and an event.
///
/// Login failure halts before any bet. A settled bet is routed to the
/// win or loss booking by its outcome. A recoverable error sleeps — the
/// advertised cooldown for a rate limit, one iteration delay for an
/// empty reply — and any other error carries into the halted state.
pub fn step(state: OrchestratorState, event: OrchestratorEvent) -> (r: (
    OrchestratorState,
    OrchestratorAction,
))
    ensures
        state is Init && event is Start ==> r.0 is Init && r.1 is Login,
        state is Init && event is LoginSucceeded ==> r.0 is Betting && r.1 is PlaceBet,
        state is Init ==> (event matches OrchestratorEvent::LoginRejected(e) ==> r.0
            == OrchestratorState::Halted(Some(e)) && r.1 is Halt),
        state is Betting ==> (event matches OrchestratorEvent::BetSettled(b) ==> r.0 is Settling
            && (if b.result {
            r.1 == OrchestratorAction::SettleWin(b)
        } else {
            r.1 == OrchestratorAction::SettleLose(b)
        })),
        state is Betting ==> (event matches OrchestratorEvent::BetFailed(e) ==> (
        if spec_error_recoverable(e) {
            r.0 is Betting && r.1 == spec_error_disposition(e)
        } else {
            r.0 == OrchestratorState::Halted(Some(e)) && r.1 is Halt
        })),
        state is Settling && event is SettlingDone ==> r.0 is Betting && r.1
            == OrchestratorAction::Sleep(ITERATION_DELAY_MS),
        event is StopRequested && !(state is Halted) ==> r.0 == OrchestratorState::Halted(
            None::<BetError>,
        ) && r.1 is Halt,
        state is Halted ==> r.0 == state && r.1 is Halt,
{
    if let OrchestratorState::Halted(e) = state {
        return (OrchestratorState::Halted(e), OrchestratorAction::Halt);
    }
    if let OrchestratorEvent::StopRequested = event {
        return (OrchestratorState::Halted(None), OrchestratorAction::Halt);
    }
    match state {
        OrchestratorState::Init => {
            match event {
                OrchestratorEvent::Start => (OrchestratorState::Init, OrchestratorAction::Login),
                OrchestratorEvent::LoginSucceeded => (
                    OrchestratorState::Betting,
                    OrchestratorAction::PlaceBet,
                ),
                OrchestratorEvent::LoginRejected(e) => (
                    OrchestratorState::Halted(Some(e)),
                    OrchestratorAction::Halt,
                ),
                _ => (OrchestratorState::Init, OrchestratorAction::Login),
            }
        },
        OrchestratorState::Betting => {
            match event {
                OrchestratorEvent::BetSettled(b) => {
                    if b.result {
                        (OrchestratorState::Settling, OrchestratorAction::SettleWin(b))
                    } else {
                        (OrchestratorState::Settling, OrchestratorAction::SettleLose(b))
                    }
                },
                OrchestratorEvent::BetFailed(e) => {
                    match e {
                        BetError::EmptyReply => (
                            OrchestratorState::Betting,
                            OrchestratorAction::Sleep(ITERATION_DELAY_MS),
                        ),
                        BetError::RateLimited(secs) => {
                            let ms: u64 = if secs > 0xFFFFFFFFFFFFF {
                                0xFFFFFFFFFFFFF000u64
                            } else {
                                secs * 1000
                            };
                            (OrchestratorState::Betting, OrchestratorAction::Sleep(ms))
                        },
                        _ => (OrchestratorState::Halted(Some(e)), OrchestratorAction::Halt),
                    }
                },
                _ => (OrchestratorState::Betting, OrchestratorAction::PlaceBet),
            }
        },
        OrchestratorState::Settling => (
            OrchestratorState::Betting,
            OrchestratorAction::Sleep(ITERATION_DELAY_MS),
        ),
        OrchestratorState::Halted(e) => (OrchestratorState::Halted(e), OrchestratorAction::Halt),
    }
}

} // verus!
