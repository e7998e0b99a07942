pub mod error;
pub mod identity;
pub mod legislative;
pub mod context;
pub mod stance;
pub mod analysis;
pub mod events;
pub mod senator;
pub mod records;
pub mod evaluation;
pub mod snapshot;
pub mod features;
