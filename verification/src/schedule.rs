//! The schedules of a frame that the library has a part in.

use vstd::prelude::*;

verus! {

/// Label of the schedule in which an application draws into the pixel buffer.
#[derive(Clone, Copy, Debug, PartialEq, Eq, Hash)]
pub struct Draw;

/// Label of the schedule in which the pixel buffer is presented.
#[derive(Clone, Copy, Debug, PartialEq, Eq, Hash)]
pub struct Render;

/// A schedule of the host's frame: three of the host's own, and the two that
/// the library adds behind them.
#[derive(Clone, Copy, Debug, PartialEq, Eq, Structural)]
pub enum Schedule {
    /// The host's first schedule of a frame.
    First,
    /// The host's schedule ahead of the application's update.
    PreUpdate,
    /// The host's schedule behind the application's update.
    PostUpdate,
    /// The schedule labelled [`Draw`].
    Draw,
    /// The schedule labelled [`Render`].
    Render,
}

impl Schedule {
    /// The place of the schedule in a frame: a schedule of a lower rank has
    /// run when one of a higher rank begins.
    pub open spec fn rank(self) -> nat {
        match self {
            Schedule::First => 0,
            Schedule::PreUpdate => 1,
            Schedule::PostUpdate => 2,
            Schedule::Draw => 3,
            Schedule::Render => 4,
        }
    }

    /// Whether the library adds the schedule, rather than finding it in the
    /// host.
    pub open spec fn added(self) -> bool {
        self == Schedule::Draw || self == Schedule::Render
    }
}

impl Draw {
    /// The schedule that the label stands for.
    pub fn schedule(&self) -> (schedule: Schedule)
        ensures
            schedule == Schedule::Draw,
    {
        Schedule::Draw
    }
}

impl Render {
    /// The schedule that the label stands for.
    pub fn schedule(&self) -> (schedule: Schedule)
        ensures
            schedule == Schedule::Render,
    {
        Schedule::Render
    }
}

} // verus!
