pub mod sources;
pub mod normalize;
pub mod snapshot;
pub mod public_signals;
pub mod signal_terms;
pub mod live;
pub mod senate_votes;
pub mod config;
pub mod congress_api;
pub mod gdelt;
pub mod record_fields;
pub mod congress_json;
