pub mod feature_driven;
pub mod stance;

use vstd::prelude::*;

verus! {

/// Which scorer derives a stance.
#[derive(Debug, Clone, Copy, PartialEq, Eq, Structural)]
pub enum StanceDerivationMode {
    Heuristic,
    FeatureDriven,
}

} // verus!
pub mod laws;
