//! The loop that captures textures of the first monitor and hands them on.

use vstd::prelude::*;

use crate::capture::{
    recovery, Recovery, DXGI_ERROR_ACCESS_LOST, DXGI_ERROR_DEVICE_REMOVED, DXGI_ERROR_WAIT_TIMEOUT,
};

verus! {

/// How long the loop pauses after a failure, in milliseconds.
pub const PAUSE_MS: u64 = 200;

/// What the loop does next.
#[derive(Debug, Clone, Copy, PartialEq, Eq, Structural)]
pub enum LoopStep {
    /// Open the duplication.
    Open,
    /// Wait for a frame.
    Acquire,
    /// Copy the frame and send it, unless the renderer is busy.
    Publish,
    /// Give the frame back.
    Release,
    /// Drop the duplication and pause; `renew` says that the device is gone.
    Pause { renew: bool },
    /// Make the device anew, and all that belongs to it.
    RenewDevice,
    Stopped,
}

/// What came of a step.
#[derive(Debug, Clone, Copy, PartialEq, Eq, Structural)]
pub enum Outcome {
    Done,
    /// A frame came, but nothing is in it.
    Empty,
    /// The step failed with this code.
    Failed(i32),
}

/// `step`, as long as the program is running.
pub open spec fn if_running(running: bool, step: LoopStep) -> LoopStep {
    if running {
        step
    } else {
        LoopStep::Stopped
    }
}

/// The step after a failure that ends the duplication.
pub open spec fn pause_after(code: i32) -> LoopStep {
    LoopStep::Pause { renew: code == DXGI_ERROR_DEVICE_REMOVED }
}

/// `step`, as long as the program is running.
fn go(running: bool, step: LoopStep) -> (r: LoopStep)
    ensures
        r == if_running(running, step),
{
    if running {
        step
    } else {
        LoopStep::Stopped
    }
}

/// The step after a failure that ends the duplication.
fn give_up(code: i32) -> (r: LoopStep)
    ensures
        r == pause_after(code),
{
    match recovery(code) {
        Recovery::RecreateDevice => LoopStep::Pause { renew: true },
        _ => LoopStep::Pause { renew: false },
    }
}

impl LoopStep {
    /// The step that the loop starts with.
    pub fn first(running: bool) -> (r: LoopStep)
        ensures
            r == if_running(running, LoopStep::Open),
    {
        go(running, LoopStep::Open)
    }

    /// The step that follows.
    pub open spec fn after(self, running: bool, outcome: Outcome) -> LoopStep {
        match (self, outcome) {
            (LoopStep::Acquire, Outcome::Failed(code)) => if code == DXGI_ERROR_WAIT_TIMEOUT {
                if_running(running, LoopStep::Acquire)
            } else {
                pause_after(code)
            },
            (LoopStep::Acquire, Outcome::Done) => LoopStep::Publish,
            (LoopStep::Acquire, Outcome::Empty) => LoopStep::Release,
            (LoopStep::Pause { renew }, _) => if_running(
                running,
                if renew {
                    LoopStep::RenewDevice
                } else {
                    LoopStep::Open
                },
            ),
            (LoopStep::RenewDevice, Outcome::Failed(_)) => LoopStep::Pause { renew: true },
            (LoopStep::RenewDevice, _) => if_running(running, LoopStep::Open),
            (LoopStep::Stopped, _) => LoopStep::Stopped,
            (_, Outcome::Failed(code)) => pause_after(code),
            (LoopStep::Open, _) => if_running(running, LoopStep::Acquire),
            (LoopStep::Publish, _) => LoopStep::Release,
            (LoopStep::Release, _) => if_running(running, LoopStep::Acquire),
        }
    }

    /// The step that follows. `running` says whether the program is still
    /// running, and `outcome` what came of this step.
    pub fn next(self, running: bool, outcome: Outcome) -> (r: LoopStep)
        ensures
            r == self.after(running, outcome),
    {
        match self {
            LoopStep::Open => match outcome {
                Outcome::Failed(code) => give_up(code),
                _ => go(running, LoopStep::Acquire),
            },
            LoopStep::Acquire => match outcome {
                Outcome::Done => LoopStep::Publish,
                Outcome::Empty => LoopStep::Release,
                Outcome::Failed(code) => match recovery(code) {
                    Recovery::Retry => go(running, LoopStep::Acquire),
                    _ => give_up(code),
                },
            },
            LoopStep::Publish => match outcome {
                Outcome::Failed(code) => give_up(code),
                _ => LoopStep::Release,
            },
            LoopStep::Release => match outcome {
                Outcome::Failed(code) => give_up(code),
                _ => go(running, LoopStep::Acquire),
            },
            LoopStep::Pause { renew } => {
                if renew {
                    go(running, LoopStep::RenewDevice)
                } else {
                    go(running, LoopStep::Open)
                }
            },
            LoopStep::RenewDevice => match outcome {
                Outcome::Failed(_) => LoopStep::Pause { renew: true },
                _ => go(running, LoopStep::Open),
            },
            LoopStep::Stopped => LoopStep::Stopped,
        }
    }
}

/// What the loop answers to each error of waiting for a frame: it waits again
/// after a timeout, opens the duplication anew after it was lost, and makes the
/// device anew where that is gone; after any other error it opens the
/// duplication anew.
pub proof fn law_error_table(code: i32, pause: Outcome)
    ensures
        ({
            let next = LoopStep::Acquire.after(true, Outcome::Failed(code));
            let then = next.after(true, pause);
            if code == DXGI_ERROR_WAIT_TIMEOUT {
                next == LoopStep::Acquire
            } else if code == DXGI_ERROR_DEVICE_REMOVED {
                then == LoopStep::RenewDevice && then.after(true, Outcome::Done) == LoopStep::Open
            } else {
                then == LoopStep::Open
            }
        }),
        LoopStep::Acquire.after(true, Outcome::Failed(DXGI_ERROR_ACCESS_LOST)).after(true, pause)
            == LoopStep::Open,
{
}

/// While the program is running the loop does not stop, whatever fails.
pub proof fn law_loop_goes_on(step: LoopStep, outcome: Outcome)
    requires
        step != LoopStep::Stopped,
    ensures
        step.after(true, outcome) != LoopStep::Stopped,
{
}

/// How many steps are left at most once the program shuts down.
pub open spec fn loop_steps_left(step: LoopStep) -> nat {
    match step {
        LoopStep::Stopped => 0,
        LoopStep::Pause { .. } => 1,
        LoopStep::Open => 2,
        LoopStep::RenewDevice => 2,
        LoopStep::Release => 2,
        LoopStep::Publish => 3,
        LoopStep::Acquire => 4,
    }
}

/// Once the program shuts down, every step brings the loop nearer to its end.
pub proof fn law_loop_ends(step: LoopStep, outcome: Outcome)
    requires
        step != LoopStep::Stopped,
    ensures
        loop_steps_left(step.after(false, outcome)) < loop_steps_left(step),
{
}

/// What the loop holds.
pub ghost struct Holding {
    pub duplication: bool,
    pub frame: bool,
}

/// What is held after a step. A failure, other than waiting in vain, drops the
/// duplication and with it the frame; so does the end of the loop.
pub open spec fn holding_after(held: Holding, step: LoopStep, running: bool, outcome: Outcome) -> Holding {
    let next = step.after(running, outcome);
    if next is Pause || next is Stopped {
        Holding { duplication: false, frame: false }
    } else {
        match step {
            LoopStep::Open => Holding { duplication: true, ..held },
            LoopStep::Acquire => Holding { frame: outcome !is Failed, ..held },
            LoopStep::Release => Holding { frame: false, ..held },
            _ => held,
        }
    }
}

/// The step after a series of steps, each with whether the program was running
/// and what came of the step.
pub open spec fn loop_step(first: bool, outcomes: Seq<(bool, Outcome)>) -> LoopStep
    decreases outcomes.len(),
{
    if outcomes.len() == 0 {
        if_running(first, LoopStep::Open)
    } else {
        loop_step(first, outcomes.drop_last()).after(outcomes.last().0, outcomes.last().1)
    }
}

/// What is held after a series of steps.
pub open spec fn loop_holding(first: bool, outcomes: Seq<(bool, Outcome)>) -> Holding
    decreases outcomes.len(),
{
    if outcomes.len() == 0 {
        Holding { duplication: false, frame: false }
    } else {
        holding_after(
            loop_holding(first, outcomes.drop_last()),
            loop_step(first, outcomes.drop_last()),
            outcomes.last().0,
            outcomes.last().1,
        )
    }
}

/// However the steps turn out, a duplication is open whenever the loop waits for
/// a frame, no frame is held then, and a frame is held whenever one is published
/// or given back: every frame is given back before the next one is asked for.
pub proof fn law_frames_given_back(first: bool, outcomes: Seq<(bool, Outcome)>)
    ensures
        loop_holding(first, outcomes) == match loop_step(first, outcomes) {
            LoopStep::Acquire => Holding { duplication: true, frame: false },
            LoopStep::Publish | LoopStep::Release => Holding { duplication: true, frame: true },
            _ => Holding { duplication: false, frame: false },
        },
    decreases outcomes.len(),
{
    if outcomes.len() > 0 {
        law_frames_given_back(first, outcomes.drop_last());
    }
}

/// What leads to each step, and to a pause before it: a frame is published
/// exactly after one came, given back after that or where it was empty, and asked
/// for again after it was given back, after the duplication was opened or after
/// waiting in vain. A failure pauses, except waiting in vain; after the pause the
/// device is made anew exactly where it was gone, and else the duplication.
pub proof fn law_loop_order(step: LoopStep, running: bool, outcome: Outcome)
    ensures
        ({
            let next = step.after(running, outcome);
            let failed = outcome is Failed;
            let gone = outcome == Outcome::Failed(DXGI_ERROR_DEVICE_REMOVED);
            let in_vain = step == LoopStep::Acquire && outcome == Outcome::Failed(
                DXGI_ERROR_WAIT_TIMEOUT,
            );
            let capturing = step == LoopStep::Open || step == LoopStep::Acquire || step
                == LoopStep::Publish || step == LoopStep::Release;
            let asks = (step == LoopStep::Open || step == LoopStep::Release) && !failed || in_vain;
            let opens = step == (LoopStep::Pause { renew: false }) || step == LoopStep::RenewDevice
                && !failed;
            let renews = step == (LoopStep::Pause { renew: true });
            &&& next == LoopStep::Publish <==> step == LoopStep::Acquire && outcome == Outcome::Done
            &&& next == LoopStep::Release <==> step == LoopStep::Acquire && outcome == Outcome::Empty
                || step == LoopStep::Publish && !failed
            &&& next == LoopStep::Acquire <==> asks && running
            &&& next == LoopStep::Open <==> opens && running
            &&& next == LoopStep::RenewDevice <==> renews && running
            &&& next == LoopStep::Stopped <==> (asks || opens || renews) && !running || step
                == LoopStep::Stopped
            &&& next == (LoopStep::Pause { renew: true }) <==> capturing && gone || step
                == LoopStep::RenewDevice && failed
            &&& next == (LoopStep::Pause { renew: false }) <==> capturing && failed && !gone
                && !in_vain
        }),
        if_running(true, step) == step,
        if_running(false, step) == LoopStep::Stopped,
{
}

} // verus!
