//! What the library asks of the host when an application starts.

use crate::options::PixelsOptions;
use crate::schedule::Schedule;
use vstd::prelude::*;

verus! {

/// A system that the library runs in every frame.
#[derive(Clone, Copy, Debug, PartialEq, Eq, Structural)]
pub enum System {
    /// Creates the pixel buffer of each window that is due one.
    CreatePixels,
    /// Takes in changes of a window's scale factor.
    WindowChange,
    /// Takes in resizes of a window.
    WindowResize,
    /// Takes in options that were written to.
    ResizeBuffer,
    /// Presents each pixel buffer on its surface.
    Render,
}

/// What a system is there for. The three follow each other in a frame.
#[derive(Clone, Copy, Debug, PartialEq, Eq, Structural)]
pub enum Phase {
    /// Making pixel buffers.
    Creation,
    /// Keeping buffer and surface in step with the window.
    Synchronization,
    /// Showing the buffer.
    Presentation,
}

impl Phase {
    /// The place of the phase in a frame.
    pub open spec fn rank(self) -> nat {
        match self {
            Phase::Creation => 0,
            Phase::Synchronization => 1,
            Phase::Presentation => 2,
        }
    }
}

impl System {
    /// What the system is there for.
    pub open spec fn phase(self) -> Phase {
        match self {
            System::CreatePixels => Phase::Creation,
            System::WindowChange => Phase::Synchronization,
            System::WindowResize => Phase::Synchronization,
            System::ResizeBuffer => Phase::Synchronization,
            System::Render => Phase::Presentation,
        }
    }
}

/// A system's place: the schedule it runs in and, where it matters, the
/// system of that schedule that it runs behind.
#[derive(Clone, Copy, Debug, PartialEq, Eq, Structural)]
pub struct Placement {
    pub schedule: Schedule,
    pub system: System,
    pub after: Option<System>,
}

/// An added schedule's place in the frame: directly behind `after`.
#[derive(Clone, Copy, Debug, PartialEq, Eq, Structural)]
pub struct Insertion {
    pub after: Schedule,
    pub schedule: Schedule,
}

/// Everything the library asks of the host at startup, in the order in
/// which it is to be asked.
#[derive(Clone, Debug)]
pub struct Setup {
    /// Schedules to add. Each runs its systems on one thread.
    pub schedules: Vec<Schedule>,
    /// Systems to add, each at its place.
    pub systems: Vec<Placement>,
    /// Where the added schedules go in the frame.
    pub order: Vec<Insertion>,
    /// Options to attach to the primary window.
    pub primary_window: Option<PixelsOptions>,
}

/// Ties a pixel buffer to each window that carries [`PixelsOptions`].
pub struct PixelsPlugin {
    /// Configuration for the primary window's pixel buffer. Where it is
    /// there, and the host has one primary window, that window gets these
    /// options, and with them a pixel buffer.
    pub primary_window: Option<PixelsOptions>,
}

impl Default for PixelsPlugin {
    fn default() -> (plugin: Self)
        ensures
            plugin.primary_window == Some(PixelsOptions::initial()),
    {
        PixelsPlugin { primary_window: Some(PixelsOptions::default()) }
    }
}

impl PixelsPlugin {
    /// The schedules that [`PixelsPlugin::build`] adds.
    pub open spec fn schedules() -> Seq<Schedule> {
        seq![Schedule::Draw, Schedule::Render]
    }

    /// The systems that [`PixelsPlugin::build`] adds, each at its place.
    pub open spec fn systems() -> Seq<Placement> {
        seq![
            Placement { schedule: Schedule::Render, system: System::Render, after: None },
            Placement { schedule: Schedule::First, system: System::CreatePixels, after: None },
            Placement { schedule: Schedule::PreUpdate, system: System::WindowChange, after: None },
            Placement { schedule: Schedule::PreUpdate, system: System::WindowResize, after: None },
            Placement {
                schedule: Schedule::PreUpdate,
                system: System::ResizeBuffer,
                after: Some(System::WindowResize),
            },
        ]
    }

    /// Where [`PixelsPlugin::build`] puts the schedules it adds: drawing
    /// behind the host's last update schedule, presenting behind drawing.
    pub open spec fn order() -> Seq<Insertion> {
        seq![
            Insertion { after: Schedule::PostUpdate, schedule: Schedule::Draw },
            Insertion { after: Schedule::Draw, schedule: Schedule::Render },
        ]
    }

    /// The options that the primary window gets: those of the plugin, where
    /// the host has exactly one primary window.
    pub open spec fn attached(self, primary_windows: nat) -> Option<PixelsOptions> {
        if primary_windows == 1 {
            self.primary_window
        } else {
            None
        }
    }

    /// Lays out what the host is to set up, for a host that has
    /// `primary_windows` windows marked as primary.
    pub fn build(&self, primary_windows: usize) -> (setup: Setup)
        ensures
            setup.schedules@ == Self::schedules(),
            setup.systems@ == Self::systems(),
            setup.order@ == Self::order(),
            setup.primary_window == self.attached(primary_windows as nat),
    {
        let schedules = vec![Schedule::Draw, Schedule::Render];
        let systems = vec![
            Placement { schedule: Schedule::Render, system: System::Render, after: None },
            Placement { schedule: Schedule::First, system: System::CreatePixels, after: None },
            Placement { schedule: Schedule::PreUpdate, system: System::WindowChange, after: None },
            Placement { schedule: Schedule::PreUpdate, system: System::WindowResize, after: None },
            Placement {
                schedule: Schedule::PreUpdate,
                system: System::ResizeBuffer,
                after: Some(System::WindowResize),
            },
        ];
        let order = vec![
            Insertion { after: Schedule::PostUpdate, schedule: Schedule::Draw },
            Insertion { after: Schedule::Draw, schedule: Schedule::Render },
        ];
        let primary_window = if primary_windows == 1 {
            self.primary_window
        } else {
            None
        };
        proof {
            assert(schedules@ =~= Self::schedules());
            assert(systems@ =~= Self::systems());
            assert(order@ =~= Self::order());
        }
        Setup { schedules, systems, order, primary_window }
    }
}

/// In a frame, buffers are created before they are kept in step with their
/// windows, and kept in step before they are presented: of two systems, the
/// one of the earlier phase runs in an earlier schedule.
pub proof fn lemma_phases_in_order(i: int, j: int)
    requires
        0 <= i < PixelsPlugin::systems().len(),
        0 <= j < PixelsPlugin::systems().len(),
        PixelsPlugin::systems()[i].system.phase().rank() < PixelsPlugin::systems()[
            j
        ].system.phase().rank(),
    ensures
        PixelsPlugin::systems()[i].schedule.rank() < PixelsPlugin::systems()[j].schedule.rank(),
{
}

/// Each system has one place, and a system that runs behind another shares
/// its schedule with a placement of that other.
pub proof fn lemma_placements_consistent()
    ensures
        forall|i: int, j: int|
            0 <= i < j < PixelsPlugin::systems().len() ==> PixelsPlugin::systems()[i].system
                != PixelsPlugin::systems()[j].system,
        forall|i: int|
            0 <= i < PixelsPlugin::systems().len() ==> (#[trigger] PixelsPlugin::systems()[i].after
                matches Some(before) ==> exists|j: int|
                0 <= j < PixelsPlugin::systems().len() && PixelsPlugin::systems()[j].system
                    == before && PixelsPlugin::systems()[j].schedule
                    == PixelsPlugin::systems()[i].schedule),
{
    let systems = PixelsPlugin::systems();
    assert(systems[3].system == System::WindowResize && systems[3].schedule
        == Schedule::PreUpdate);
}

/// Each added schedule goes directly behind a schedule that is there by
/// then: one of the host's, or one added before it.
pub proof fn lemma_added_schedules_in_order(i: int)
    requires
        0 <= i < PixelsPlugin::order().len(),
    ensures
        PixelsPlugin::order()[i].schedule == PixelsPlugin::schedules()[i],
        PixelsPlugin::order()[i].schedule.added(),
        PixelsPlugin::order()[i].schedule.rank() == PixelsPlugin::order()[i].after.rank() + 1,
        PixelsPlugin::order()[i].after.added() ==> i > 0 && PixelsPlugin::order()[i - 1].schedule
            == PixelsPlugin::order()[i].after,
{
}

} // verus!
