//! Deep Juno: the decision logic of a tick-based civilization simulation.
use vstd::prelude::*;

pub mod dashboard_labels;
pub mod diplomacy;
pub mod economy;
pub mod environment;
pub mod events;
pub mod labels;
pub mod launch;
pub mod military;
pub mod nation_index;
pub mod national_ai;
pub mod population;
pub mod simulation_event;
pub mod snapshot;
pub mod technology;
pub mod terraforming;
pub mod tick;
pub mod tui_state;
pub mod warfare;
