//! The final evaluation of a reign.

use vstd::prelude::*;
use crate::state::GameState;

verus! {

/// The four possible judgments of a ten-year reign (or of the shorter
/// reign of a deposed ruler).
#[derive(Clone, Copy, Debug, PartialEq, Eq, Structural)]
pub enum Rating {
    /// Deposed: 45 percent or more of the people starved in the final
    /// year.
    Terrible,
    /// Fewer than 600 workable acres remain.
    Adequate,
    /// Fewer than 800 workable acres remain.
    Good,
    /// At least 800 workable acres remain.
    Superb,
}

impl GameState {
    /// The acres the people could actually work: the city's land, capped
    /// at twenty acres per person.
    pub open spec fn spec_plantable_acres(self) -> int {
        if 20 * self.population < self.acres {
            20 * self.population
        } else {
            self.acres as int
        }
    }

    /// The judgment of a terminal state, in priority order: starving 45
    /// percent or more of the current population is terrible whatever
    /// else happened; otherwise the workable acreage decides, with both
    /// thresholds exclusive (599 is adequate, 600 good, 799 good, 800
    /// superb).
    pub open spec fn spec_rating(self) -> Rating {
        if self.starved >= 45 * self.population / 100 {
            Rating::Terrible
        } else if self.spec_plantable_acres() < 600 {
            Rating::Adequate
        } else if self.spec_plantable_acres() < 800 {
            Rating::Good
        } else {
            Rating::Superb
        }
    }

    /// Judges a terminal state.
    pub fn rating(&self) -> (r: Rating)
        ensures
            r == self.spec_rating(),
    {
        let threshold_wide: u128 = 45u128 * (self.population as u128) / 100;
        if self.starved as u128 >= threshold_wide {
            return Rating::Terrible;
        }
        let plantable: u64 = if self.population > u64::MAX / 20 {
            self.acres
        } else {
            let worker_cap: u64 = 20 * self.population;
            if worker_cap < self.acres {
                worker_cap
            } else {
                self.acres
            }
        };
        if plantable < 600 {
            Rating::Adequate
        } else if plantable < 800 {
            Rating::Good
        } else {
            Rating::Superb
        }
    }
}

} // verus!
