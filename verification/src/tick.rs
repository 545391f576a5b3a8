//! The course of one tick of the overlay.

use vstd::prelude::*;

verus! {

/// What a tick does next.
#[derive(Debug, Clone, Copy, PartialEq, Eq, Structural)]
pub enum TickStep {
    /// Bring the window to what the settings ask for.
    Transition,
    /// Follow the cursor to its monitor.
    Follow,
    /// Upload the latest frame, where it is new.
    Upload,
    /// Tell the shader what to draw, where that has changed.
    WriteUniforms,
    /// Draw and present.
    Draw,
    /// Size the lost surface anew.
    Recover,
    Done,
}

impl TickStep {
    /// The step that follows.
    pub open spec fn after(self, enabled: bool, ok: bool) -> TickStep {
        match self {
            TickStep::Transition => if enabled {
                TickStep::Follow
            } else {
                TickStep::Done
            },
            TickStep::Follow => TickStep::Upload,
            TickStep::Upload => TickStep::WriteUniforms,
            TickStep::WriteUniforms => TickStep::Draw,
            TickStep::Draw => if ok {
                TickStep::Done
            } else {
                TickStep::Recover
            },
            TickStep::Recover => TickStep::Done,
            TickStep::Done => TickStep::Done,
        }
    }

    /// The step that follows. `enabled` says whether the magnifier is wanted,
    /// and `ok` whether this step succeeded.
    pub fn next(self, enabled: bool, ok: bool) -> (r: TickStep)
        ensures
            r == self.after(enabled, ok),
    {
        match self {
            TickStep::Transition => {
                if enabled {
                    TickStep::Follow
                } else {
                    TickStep::Done
                }
            },
            TickStep::Follow => TickStep::Upload,
            TickStep::Upload => TickStep::WriteUniforms,
            TickStep::WriteUniforms => TickStep::Draw,
            TickStep::Draw => {
                if ok {
                    TickStep::Done
                } else {
                    TickStep::Recover
                }
            },
            TickStep::Recover => TickStep::Done,
            TickStep::Done => TickStep::Done,
        }
    }
}

/// The step that a tick is at after steps with these outcomes.
pub open spec fn tick_step(enabled: bool, outcomes: Seq<bool>) -> TickStep
    decreases outcomes.len(),
{
    if outcomes.len() == 0 {
        TickStep::Transition
    } else {
        tick_step(enabled, outcomes.drop_last()).after(enabled, outcomes.last())
    }
}

/// A tick that finds the magnifier off does nothing but apply the settings: it
/// does not look at the cursor, and it uploads and draws nothing.
pub proof fn law_disabled_tick_draws_nothing(outcomes: Seq<bool>)
    ensures
        tick_step(false, outcomes) == if outcomes.len() == 0 {
            TickStep::Transition
        } else {
            TickStep::Done
        },
    decreases outcomes.len(),
{
    if outcomes.len() > 0 {
        law_disabled_tick_draws_nothing(outcomes.drop_last());
    }
}

/// A tick that finds the magnifier on takes every step once and in order, and
/// sizes the surface anew, once, exactly where drawing failed.
pub proof fn law_enabled_tick_course(outcomes: Seq<bool>)
    ensures
        tick_step(true, outcomes) == if outcomes.len() == 0 {
            TickStep::Transition
        } else if outcomes.len() == 1 {
            TickStep::Follow
        } else if outcomes.len() == 2 {
            TickStep::Upload
        } else if outcomes.len() == 3 {
            TickStep::WriteUniforms
        } else if outcomes.len() == 4 {
            TickStep::Draw
        } else if outcomes.len() == 5 && !outcomes[4] {
            TickStep::Recover
        } else {
            TickStep::Done
        },
    decreases outcomes.len(),
{
    if outcomes.len() > 0 {
        law_enabled_tick_course(outcomes.drop_last());
    }
}

/// What leads to each step: the cursor is followed after the transition where
/// the magnifier is wanted, the frame is uploaded after that, the shader told
/// after that, and drawing follows; only a failed drawing is recovered from.
pub proof fn law_tick_order(step: TickStep, enabled: bool, ok: bool)
    ensures
        ({
            let next = step.after(enabled, ok);
            &&& next != TickStep::Transition
            &&& next == TickStep::Follow <==> step == TickStep::Transition && enabled
            &&& next == TickStep::Upload <==> step == TickStep::Follow
            &&& next == TickStep::WriteUniforms <==> step == TickStep::Upload
            &&& next == TickStep::Draw <==> step == TickStep::WriteUniforms
            &&& next == TickStep::Recover <==> step == TickStep::Draw && !ok
        }),
{
}

} // verus!
