pub mod util;
pub mod model;
pub mod analysis;
pub mod derive;
pub mod eval;
pub mod features;
pub mod ingest;
pub mod backtest;
