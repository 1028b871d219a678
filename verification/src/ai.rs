//! State machine of NPCs and mobile targets.

use vstd::prelude::*;

verus! {

/// States of an agent.
#[derive(Debug, Clone, Copy, PartialEq, Eq, Structural)]
pub enum AiState {
    Idle,
    Patrol,
    Alert,
    Evasion,
    SeekCover,
}

/// What an agent does after one tick: its next state, whether its alert timer
/// restarts from zero, and whether it picks a cover position now.
#[derive(Debug, Clone, Copy, PartialEq, Eq, Structural)]
pub struct AiDecision {
    pub state: AiState,
    pub reset_timer: bool,
    pub take_cover: bool,
}

/// The transition of one tick. The caller measures the world and reports:
/// `threat` (a threat is visible), `has_cover` (a cover position was chosen),
/// `beyond_range` (Alert: the threat is more than 15 m away; Evasion: more than
/// 20 m; SeekCover: the cover is still more than 0.5 m away) and `timer_elapsed`
/// (Idle: the timer passed 3 s; Alert: it passed 1.5 s with a threat in sight,
/// 5 s without).
pub open spec fn spec_decide(
    state: AiState,
    threat: bool,
    has_cover: bool,
    beyond_range: bool,
    timer_elapsed: bool,
) -> AiDecision {
    match state {
        AiState::Idle => if timer_elapsed {
            AiDecision { state: AiState::Patrol, reset_timer: true, take_cover: false }
        } else {
            AiDecision { state: AiState::Idle, reset_timer: false, take_cover: false }
        },
        AiState::Patrol => if threat {
            AiDecision { state: AiState::Alert, reset_timer: true, take_cover: false }
        } else {
            AiDecision { state: AiState::Patrol, reset_timer: false, take_cover: false }
        },
        AiState::Alert => {
            let next = if threat {
                if beyond_range {
                    AiState::Patrol
                } else if timer_elapsed {
                    AiState::Evasion
                } else {
                    AiState::Alert
                }
            } else if timer_elapsed {
                AiState::Patrol
            } else {
                AiState::Alert
            };
            AiDecision { state: next, reset_timer: false, take_cover: false }
        },
        AiState::Evasion => if threat && beyond_range {
            AiDecision { state: AiState::SeekCover, reset_timer: false, take_cover: true }
        } else {
            AiDecision { state: AiState::Evasion, reset_timer: false, take_cover: false }
        },
        AiState::SeekCover => if !has_cover {
            AiDecision { state: AiState::Patrol, reset_timer: false, take_cover: false }
        } else if beyond_range {
            AiDecision { state: AiState::SeekCover, reset_timer: false, take_cover: false }
        } else {
            AiDecision { state: AiState::Patrol, reset_timer: true, take_cover: false }
        },
    }
}

/// Decision rules shared by all agents.
pub struct AiSystem;

impl AiSystem {
    /// The decision of one tick (see `spec_decide` for what each flag means).
    pub fn decide(
        state: AiState,
        threat: bool,
        has_cover: bool,
        beyond_range: bool,
        timer_elapsed: bool,
    ) -> (d: AiDecision)
        ensures
            d == spec_decide(state, threat, has_cover, beyond_range, timer_elapsed),
    {
        match state {
            AiState::Idle => {
                if timer_elapsed {
                    AiDecision { state: AiState::Patrol, reset_timer: true, take_cover: false }
                } else {
                    AiDecision { state: AiState::Idle, reset_timer: false, take_cover: false }
                }
            },
            AiState::Patrol => {
                if threat {
                    AiDecision { state: AiState::Alert, reset_timer: true, take_cover: false }
                } else {
                    AiDecision { state: AiState::Patrol, reset_timer: false, take_cover: false }
                }
            },
            AiState::Alert => {
                let next = if threat {
                    if beyond_range {
                        AiState::Patrol
                    } else if timer_elapsed {
                        AiState::Evasion
                    } else {
                        AiState::Alert
                    }
                } else if timer_elapsed {
                    AiState::Patrol
                } else {
                    AiState::Alert
                };
                AiDecision { state: next, reset_timer: false, take_cover: false }
            },
            AiState::Evasion => {
                if threat && beyond_range {
                    AiDecision { state: AiState::SeekCover, reset_timer: false, take_cover: true }
                } else {
                    AiDecision { state: AiState::Evasion, reset_timer: false, take_cover: false }
                }
            },
            AiState::SeekCover => {
                if !has_cover {
                    AiDecision { state: AiState::Patrol, reset_timer: false, take_cover: false }
                } else if beyond_range {
                    AiDecision { state: AiState::SeekCover, reset_timer: false, take_cover: false }
                } else {
                    AiDecision { state: AiState::Patrol, reset_timer: true, take_cover: false }
                }
            },
        }
    }

    /// A stone that barely missed puts the agent on alert with a fresh timer,
    /// whatever it was doing.
    pub fn on_near_miss(state: AiState) -> (d: AiDecision)
        ensures
            d == (AiDecision { state: AiState::Alert, reset_timer: true, take_cover: false }),
    {
        let _ = state;
        AiDecision { state: AiState::Alert, reset_timer: true, take_cover: false }
    }
}

/// An agent only ever takes cover when leaving evasion, and only leaves patrol
/// when a threat is seen.
pub proof fn lemma_decide_shape(
    state: AiState,
    threat: bool,
    has_cover: bool,
    beyond_range: bool,
    timer_elapsed: bool,
)
    ensures
        spec_decide(state, threat, has_cover, beyond_range, timer_elapsed).take_cover ==> state
            == AiState::Evasion && spec_decide(state, threat, has_cover, beyond_range, timer_elapsed).state
            == AiState::SeekCover,
        state == AiState::Patrol && !threat ==> spec_decide(state, threat, has_cover, beyond_range, timer_elapsed).state == AiState::Patrol,
        spec_decide(state, threat, has_cover, beyond_range, timer_elapsed).state == AiState::Idle ==> state == AiState::Idle,
{
}

/// The transition table of one tick, state by state:
/// - Idle turns to Patrol, with a fresh timer, exactly when its timer passed;
/// - Patrol turns to Alert, with a fresh timer, exactly when a threat is seen;
/// - Alert falls back to Patrol when the threat is out of range or, with no
///   threat in sight, when its timer passed; it turns to Evasion when a threat
///   in range is seen after the timer passed; otherwise it stays alert;
/// - Evasion turns to SeekCover, choosing a cover, exactly when a threat is
///   seen beyond range;
/// - SeekCover returns to Patrol when there is no cover or the cover is reached
///   (with a fresh timer in the latter case), and keeps going otherwise.
pub proof fn lemma_decide_table(
    state: AiState,
    threat: bool,
    has_cover: bool,
    beyond_range: bool,
    timer_elapsed: bool,
)
    ensures
        ({
            let d = spec_decide(state, threat, has_cover, beyond_range, timer_elapsed);
            &&& state == AiState::Idle ==> d.state == (if timer_elapsed { AiState::Patrol } else {
                AiState::Idle
            }) && d.reset_timer == timer_elapsed && !d.take_cover
            &&& state == AiState::Patrol ==> d.state == (if threat { AiState::Alert } else {
                AiState::Patrol
            }) && d.reset_timer == threat && !d.take_cover
            &&& state == AiState::Alert ==> (d.state == AiState::Patrol <==> (threat && beyond_range)
                || (!threat && timer_elapsed)) && (d.state == AiState::Evasion <==> threat
                && !beyond_range && timer_elapsed) && (d.state == AiState::Alert <==> !(threat
                && beyond_range) && !timer_elapsed) && !d.reset_timer && !d.take_cover
            &&& state == AiState::Evasion ==> d.state == (if threat && beyond_range {
                AiState::SeekCover
            } else {
                AiState::Evasion
            }) && d.take_cover == (threat && beyond_range) && !d.reset_timer
            &&& state == AiState::SeekCover ==> d.state == (if has_cover && beyond_range {
                AiState::SeekCover
            } else {
                AiState::Patrol
            }) && d.reset_timer == (has_cover && !beyond_range) && !d.take_cover
        }),
{
}

} // verus!
