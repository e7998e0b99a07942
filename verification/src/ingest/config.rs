//! How an ingestion run is configured.

use vstd::prelude::*;
use crate::util::calendar::CalendarDate;

verus! {

/// Where the raw records come from.
#[derive(Debug, Clone, Copy, PartialEq, Eq, Structural)]
pub enum IngestionSourceMode {
    Fixtures,
    Live,
}

/// The settings of one ingestion run; the roots are directory paths.
pub struct IngestionConfig {
    pub run_date: CalendarDate,
    pub source_mode: IngestionSourceMode,
    pub congress_api_key: Option<String>,
    pub output_root: String,
    pub fixture_root: String,
    pub use_cached_raw_if_present: bool,
    pub include_gdelt: bool,
    pub gdelt_query_limit: usize,
}

/// The settings shared by both constructors for the given date, mode and key.
pub open spec fn default_config(c: IngestionConfig, run_date: CalendarDate, mode: IngestionSourceMode, key: Option<String>) -> bool {
    &&& c.run_date == run_date
    &&& c.source_mode == mode
    &&& c.congress_api_key == key
    &&& c.output_root@ == "data"@
    &&& c.fixture_root@ == "fixtures/ingest"@
    &&& !c.use_cached_raw_if_present
    &&& !c.include_gdelt
    &&& c.gdelt_query_limit == 5
}

impl IngestionConfig {
    /// A run over the saved fixtures, without public signals.
    pub fn fixtures(run_date: CalendarDate) -> (r: IngestionConfig)
        ensures
            default_config(r, run_date, IngestionSourceMode::Fixtures, None),
    {
        IngestionConfig {
            run_date,
            source_mode: IngestionSourceMode::Fixtures,
            congress_api_key: None,
            output_root: String::from_str("data"),
            fixture_root: String::from_str("fixtures/ingest"),
            use_cached_raw_if_present: false,
            include_gdelt: false,
            gdelt_query_limit: 5,
        }
    }

    /// A run against the live sources, with the given API key.
    pub fn live(run_date: CalendarDate, congress_api_key: Option<String>) -> (r: IngestionConfig)
        ensures
            default_config(r, run_date, IngestionSourceMode::Live, congress_api_key),
    {
        IngestionConfig {
            run_date,
            source_mode: IngestionSourceMode::Live,
            congress_api_key,
            output_root: String::from_str("data"),
            fixture_root: String::from_str("fixtures/ingest"),
            use_cached_raw_if_present: false,
            include_gdelt: false,
            gdelt_query_limit: 5,
        }
    }
}

} // verus!
