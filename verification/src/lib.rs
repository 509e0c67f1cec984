//! Ship logic for the autonomous colony ship operator: reactor modes, ship
//! resources, alerts, colonists, the event log, screen navigation and the
//! snapshot store, each with its contract.
use vstd::prelude::*;

pub mod alert;
pub mod bounded;
pub mod colonist;
pub mod events;
pub mod history;
pub mod input;
pub mod labels;
pub mod layout;
pub mod log;
pub mod name_gen;
pub mod nav;
pub mod order;
pub mod persistence;
pub mod popup;
pub mod reactor;
pub mod resources;
pub mod text;
pub mod theme;
pub mod widgets;

verus! {

} // verus!
