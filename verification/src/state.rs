//! The record of all simulation quantities for one year of the game.

use vstd::prelude::*;
use crate::LAND_VALUE_MIN;
use crate::LAND_VALUE_MAX;
use crate::random::RandomSource;

verus! {

/// Every quantity the simulation tracks for the current year.
///
/// All quantities are unsigned, so grain, acres and population can never
/// go negative, whatever sequence of phases runs.
#[derive(Clone, Copy, Debug, PartialEq, Eq, Structural)]
pub struct GameState {
    /// Current year of the reign, starting at 1.
    pub year: u64,
    /// Living subjects.
    pub population: u64,
    /// Stored bushels of grain.
    pub grain: u64,
    /// Acres of land the city owns.
    pub acres: u64,
    /// Market price of land, in bushels per acre.
    pub land_value: u64,
    /// Deaths by starvation this year.
    pub starved: u64,
    /// Share of the population that starved this year, in percent.
    pub percent_starved: u64,
    /// Deaths by plague this year.
    pub plague_victims: u64,
    /// Arrivals this year.
    pub immigrants: u64,
    /// Bushels harvested this year.
    pub grain_harvested: u64,
    /// Yield rate this year, in bushels per acre planted.
    pub harvest_per_acre: u64,
    /// Bushels destroyed by rats this year.
    pub amount_eaten_by_rats: u64,
    /// Bushels the player committed to feeding this year.
    pub grain_fed_to_people: u64,
    /// Acres sown this year, derived from the planting decision.
    pub acres_planted: u64,
    /// False once the player has been deposed.
    pub in_office: bool,
}

impl GameState {
    /// Well-formedness: the land price stays in the market's range, the
    /// starvation percentage is a percentage, and the year counter stays
    /// within one step of the ten-year term.
    pub open spec fn wf(self) -> bool {
        &&& LAND_VALUE_MIN <= self.land_value <= LAND_VALUE_MAX
        &&& self.percent_starved <= 100
        &&& 1 <= self.year <= 11
    }

    /// The state a reign begins in, given the starting grain store.
    pub open spec fn spec_starting(initial_grain: u64) -> GameState {
        GameState {
            year: 1,
            population: 100,
            grain: initial_grain,
            acres: 1000,
            land_value: 19,
            starved: 0,
            percent_starved: 0,
            plague_victims: 0,
            immigrants: 5,
            grain_harvested: 3000,
            harvest_per_acre: 3,
            amount_eaten_by_rats: 200,
            grain_fed_to_people: 0,
            acres_planted: 0,
            in_office: true,
        }
    }

    /// Builds the starting state for a reign whose initial grain store
    /// has already been drawn.
    pub fn starting(initial_grain: u64) -> (s: GameState)
        requires
            2000 <= initial_grain < 4500,
        ensures
            s == GameState::spec_starting(initial_grain),
            s.wf(),
    {
        GameState {
            year: 1,
            population: 100,
            grain: initial_grain,
            acres: 1000,
            land_value: 19,
            starved: 0,
            percent_starved: 0,
            plague_victims: 0,
            immigrants: 5,
            grain_harvested: 3000,
            harvest_per_acre: 3,
            amount_eaten_by_rats: 200,
            grain_fed_to_people: 0,
            acres_planted: 0,
            in_office: true,
        }
    }

    /// Begins a reign: all quantities take their fixed starting values,
    /// and the grain store is drawn uniformly from `[2000, 4500)`.
    pub fn initialize(rng: &mut RandomSource) -> (s: GameState)
        ensures
            2000 <= s.grain < 4500,
            s == GameState::spec_starting(s.grain),
            s.wf(),
    {
        let extra = rng.next(2500);
        GameState::starting(2000 + extra)
    }

    /// True once the reign is over: the player was deposed, or the
    /// ten-year term has been served.
    pub open spec fn spec_finished(self) -> bool {
        !self.in_office || self.year > 10
    }

    /// Reports whether the reign is over.
    pub fn is_finished(&self) -> (r: bool)
        ensures
            r == self.spec_finished(),
    {
        !self.in_office || self.year > 10
    }
}

} // verus!
