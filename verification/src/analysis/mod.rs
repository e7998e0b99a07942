pub mod transition;
pub mod chamber;
pub mod floor_action;
