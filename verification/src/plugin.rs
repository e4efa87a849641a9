//! The two bundles of callbacks that the program is assembled from.

use vstd::prelude::*;

verus! {

/// When the engine runs a callback.
#[derive(Clone, Copy, Debug, PartialEq, Eq, Structural)]
pub enum Stage {
    /// Once, before the first frame.
    Startup,
    /// On every frame.
    Update,
}

/// The callbacks that the two bundles hold.
#[derive(Clone, Copy, Debug, PartialEq, Eq, Structural)]
pub enum System {
    /// Creates the button.
    SpawnButton,
    /// Gives the button the look that goes with the pointer's state.
    ButtonSystem,
    /// Creates the people who are greeted.
    InsertPeople,
    /// Greets the people on the frames on which the timer has just finished.
    GreetPeople,
}

/// One callback and the stage it is registered for.
#[derive(Clone, Copy, Debug, PartialEq, Eq, Structural)]
pub struct Registration {
    pub stage: Stage,
    pub system: System,
}

/// The button bundle: the button is created at startup and follows the
/// pointer on every frame.
#[derive(Clone, Copy, Debug)]
pub struct ButtonPlugin;

/// The greeting bundle: the people are created at startup and greeted on
/// the frames on which the timer completes.
#[derive(Clone, Copy, Debug)]
pub struct HelloPlugin;

impl ButtonPlugin {
    /// The registrations of the button bundle, in order.
    pub open spec fn plan() -> Seq<Registration> {
        seq![
            Registration { stage: Stage::Startup, system: System::SpawnButton },
            Registration { stage: Stage::Update, system: System::ButtonSystem },
        ]
    }

    /// The registrations to make with the engine, in order.
    pub fn build(&self) -> (plan: Vec<Registration>)
        ensures
            plan@ == ButtonPlugin::plan(),
    {
        let plan = vec![
            Registration { stage: Stage::Startup, system: System::SpawnButton },
            Registration { stage: Stage::Update, system: System::ButtonSystem },
        ];
        assert(plan@ =~= ButtonPlugin::plan());
        plan
    }
}

impl HelloPlugin {
    /// The registrations of the greeting bundle, in order.
    pub open spec fn plan() -> Seq<Registration> {
        seq![
            Registration { stage: Stage::Startup, system: System::InsertPeople },
            Registration { stage: Stage::Update, system: System::GreetPeople },
        ]
    }

    /// The registrations to make with the engine, in order.
    pub fn build(&self) -> (plan: Vec<Registration>)
        ensures
            plan@ == HelloPlugin::plan(),
    {
        let plan = vec![
            Registration { stage: Stage::Startup, system: System::InsertPeople },
            Registration { stage: Stage::Update, system: System::GreetPeople },
        ];
        assert(plan@ =~= HelloPlugin::plan());
        plan
    }
}

} // verus!
