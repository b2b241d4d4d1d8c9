//! The unconditional event phases of a year: plague, starvation,
//! deposal, immigration, harvest, rats, and the land market.
//!
//! Each phase has an exact transition spec; `run_year_events` strings
//! them together in the fixed order of the year cycle, and `run_year`
//! does the same with fresh random draws.

use vstd::prelude::*;
use vstd::arithmetic::div_mod::lemma_div_is_ordered;
use vstd::arithmetic::div_mod::lemma_div_is_ordered_by_denominator;
use vstd::arithmetic::div_mod::lemma_div_multiples_vanish;
use vstd::arithmetic::div_mod::lemma_div_nonincreasing;
use vstd::arithmetic::mul::lemma_mul_inequality;
use crate::state::GameState;
use crate::random::RandomSource;
use crate::LAND_VALUE_MIN;
use crate::LAND_VALUE_MAX;

verus! {

impl GameState {
    /// The state after the plague check: a draw below 15 (of 100) takes
    /// the population to exactly half, rounding down, and everyone
    /// above that half dies and is recorded; otherwise the year records
    /// no victims.
    pub open spec fn spec_check_plague(self, chance: u64) -> GameState {
        if chance < 15 {
            let survivors = self.population / 2;
            GameState {
                plague_victims: (self.population - survivors) as u64,
                population: survivors as u64,
                ..self
            }
        } else {
            GameState { plague_victims: 0, ..self }
        }
    }

    /// The state after the starvation count: twenty bushels feed one
    /// person for a year; anyone beyond the people fed starves.  The
    /// percentage is taken of the population before the starved are
    /// removed.
    pub open spec fn spec_count_starved(self) -> GameState {
        let fed = self.grain_fed_to_people / 20;
        if fed >= self.population {
            GameState { starved: 0, percent_starved: 0, ..self }
        } else {
            let st = self.population - fed;
            GameState {
                starved: st as u64,
                percent_starved: (100 * st / (self.population as int)) as u64,
                population: (self.population - st) as u64,
                ..self
            }
        }
    }

    /// The state after the deposal check: losing 45 percent or more of
    /// the people to starvation in one year ends the reign.
    pub open spec fn spec_check_deposal(self) -> GameState {
        if self.percent_starved >= 45 {
            GameState { in_office: false, ..self }
        } else {
            self
        }
    }

    /// How many people arrive when nobody starved this year.
    pub open spec fn spec_immigrant_count(self) -> int {
        (20 * self.acres + self.grain) / (100 * self.population) + 1
    }

    /// The state after the immigration count: nobody arrives in a year
    /// with starvation, and nobody arrives in an empty city (the
    /// arrival formula divides by the population, so it has no meaning
    /// there); otherwise arrivals grow with land and grain and shrink
    /// with crowding.
    pub open spec fn spec_count_immigrants(self) -> GameState {
        if self.starved > 0 || self.population == 0 {
            GameState { immigrants: 0, ..self }
        } else {
            let arrivals = self.spec_immigrant_count();
            GameState {
                immigrants: arrivals as u64,
                population: (self.population + arrivals) as u64,
                ..self
            }
        }
    }

    /// The state after the harvest: the yield rate is one draw of 1..=6
    /// bushels per planted acre, and the yield joins the grain store.
    pub open spec fn spec_take_harvest(self, draw: u64) -> GameState {
        let rate = draw + 1;
        let harvested = rate * self.acres_planted;
        GameState {
            harvest_per_acre: rate as u64,
            grain_harvested: harvested as u64,
            grain: (self.grain + harvested) as u64,
            ..self
        }
    }

    /// The state after the rat check: a draw below 40 (of 100) lets rats
    /// eat 10 to 30 percent of the stored grain, rounding down;
    /// otherwise the year records no loss.
    pub open spec fn spec_check_rats(self, chance: u64, share_draw: u64) -> GameState {
        if chance < 40 {
            let share = 10 + share_draw;
            let eaten = share * self.grain / 100;
            GameState {
                amount_eaten_by_rats: eaten as u64,
                grain: (self.grain - eaten) as u64,
                ..self
            }
        } else {
            GameState { amount_eaten_by_rats: 0, ..self }
        }
    }

    /// The state after the land market moves: the new price is 17 plus a
    /// draw of `[0, 7)` bushels per acre.
    pub open spec fn spec_update_land_value(self, draw: u64) -> GameState {
        GameState { land_value: (17 + draw) as u64, ..self }
    }

    /// One year's event phases in order: plague, starvation count,
    /// deposal check; then — only if the reign survived the check —
    /// immigration, harvest, rats, the land market, and the turn of the
    /// year.  A deposal ends the year at once: none of the later phases
    /// run.
    pub open spec fn spec_year_events(
        self,
        plague_chance: u64,
        harvest_draw: u64,
        rat_chance: u64,
        rat_share_draw: u64,
        land_draw: u64,
    ) -> GameState {
        let survived = self
            .spec_check_plague(plague_chance)
            .spec_count_starved()
            .spec_check_deposal();
        if survived.in_office {
            let grown = survived
                .spec_count_immigrants()
                .spec_take_harvest(harvest_draw)
                .spec_check_rats(rat_chance, rat_share_draw)
                .spec_update_land_value(land_draw);
            GameState { year: (grown.year + 1) as u64, ..grown }
        } else {
            survived
        }
    }

    /// The whole reign from this state on: each remaining year applies
    /// its four accepted decision amounts and then its five event
    /// draws, until the reign is finished or the years run out.  This
    /// is the model of the orchestrator loop the front end runs.
    pub open spec fn spec_run_term(
        self,
        decisions: Seq<(u64, u64, u64, u64)>,
        draws: Seq<(u64, u64, u64, u64, u64)>,
    ) -> GameState
        decreases draws.len(),
    {
        if decisions.len() == 0 || draws.len() == 0 || self.spec_finished() {
            self
        } else {
            let dec = decisions[0];
            let dr = draws[0];
            self.spec_apply_decisions(dec.0, dec.1, dec.2, dec.3)
                .spec_year_events(dr.0, dr.1, dr.2, dr.3, dr.4)
                .spec_run_term(decisions.drop_first(), draws.drop_first())
        }
    }

    /// Runs the plague check on a draw of `[0, 100)`.
    pub fn check_for_plague(&mut self, chance: u64)
        requires
            chance < 100,
        ensures
            *final(self) == old(self).spec_check_plague(chance),
            chance < 15 ==> final(self).population == old(self).population / 2,
            chance < 15 ==> final(self).plague_victims
                == old(self).population - old(self).population / 2,
            old(self).population >= 2 ==> final(self).population >= 1,
    {
        if chance < 15 {
            let survivors: u64 = self.population / 2;
            self.plague_victims = self.population - survivors;
            self.population = survivors;
        } else {
            self.plague_victims = 0;
        }
    }

    /// Counts the starved and removes them from the population.
    pub fn count_starved_people(&mut self)
        ensures
            *final(self) == old(self).spec_count_starved(),
            final(self).percent_starved <= 100,
            final(self).starved == 0 ==> final(self).population == old(self).population,
    {
        let fed: u64 = self.grain_fed_to_people / 20;
        if fed >= self.population {
            self.starved = 0;
            self.percent_starved = 0;
        } else {
            let st: u64 = self.population - fed;
            self.starved = st;
            let pct_wide: u128 = 100u128 * (st as u128) / (self.population as u128);
            proof {
                let stn = st as int;
                let p = self.population as int;
                lemma_div_is_ordered(100 * stn, 100 * p, p);
                lemma_div_multiples_vanish(100, p);
                assert(p * 100 == 100 * p) by (nonlinear_arith);
                assert(100 * stn / p <= 100);
            }
            self.percent_starved = pct_wide as u64;
            self.population = self.population - st;
        }
    }

    /// Ends the reign if 45 percent or more of the people starved.
    pub fn check_for_deposal(&mut self)
        ensures
            *final(self) == old(self).spec_check_deposal(),
    {
        if self.percent_starved >= 45 {
            self.in_office = false;
        }
    }

    /// Counts the arrivals and adds them to the population.
    pub fn count_immigrants(&mut self)
        requires
            old(self).starved == 0 && old(self).population >= 1
                ==> old(self).population + old(self).spec_immigrant_count() <= u64::MAX,
        ensures
            *final(self) == old(self).spec_count_immigrants(),
    {
        if self.starved > 0 || self.population == 0 {
            self.immigrants = 0;
        } else {
            let num: u128 = 20u128 * (self.acres as u128) + self.grain as u128;
            let den: u128 = 100u128 * (self.population as u128);
            proof {
                lemma_div_nonincreasing(num as int, den as int);
            }
            let arrivals_wide: u128 = num / den + 1;
            let arrivals: u64 = arrivals_wide as u64;
            self.immigrants = arrivals;
            self.population = self.population + arrivals;
        }
    }

    /// Takes in the harvest on a yield draw of `[0, 6)`.
    pub fn take_in_harvest(&mut self, draw: u64)
        requires
            draw < 6,
            old(self).grain + 6 * old(self).acres_planted <= u64::MAX,
        ensures
            *final(self) == old(self).spec_take_harvest(draw),
    {
        let rate: u64 = draw + 1;
        proof {
            lemma_mul_inequality(rate as int, 6, self.acres_planted as int);
            assert((rate as int) * (self.acres_planted as int)
                == (self.acres_planted as int) * (rate as int)) by (nonlinear_arith);
            assert(6 * (self.acres_planted as int) == (self.acres_planted as int) * 6)
                by (nonlinear_arith);
        }
        let harvested: u64 = rate * self.acres_planted;
        self.harvest_per_acre = rate;
        self.grain_harvested = harvested;
        self.grain = self.grain + harvested;
    }

    /// Runs the rat check on a draw of `[0, 100)` and, when rats strike,
    /// a share draw of `[0, 21)`.
    pub fn check_for_rats(&mut self, chance: u64, share_draw: u64)
        requires
            chance < 100,
            share_draw < 21,
        ensures
            *final(self) == old(self).spec_check_rats(chance, share_draw),
            final(self).grain <= old(self).grain,
    {
        if chance < 40 {
            let share: u64 = 10 + share_draw;
            proof {
                let sh = share as int;
                let g = self.grain as int;
                assert(sh * g <= 30 * g) by (nonlinear_arith)
                    requires
                        sh <= 30,
                        g >= 0,
                ;
                lemma_div_is_ordered(sh * g, 100 * g, 100);
                lemma_div_multiples_vanish(g, 100);
                assert(sh * g / 100 <= g);
            }
            let eaten_wide: u128 = (share as u128) * (self.grain as u128) / 100;
            let eaten: u64 = eaten_wide as u64;
            self.amount_eaten_by_rats = eaten;
            self.grain = self.grain - eaten;
        } else {
            self.amount_eaten_by_rats = 0;
        }
    }

    /// Moves the land price on a draw of `[0, 7)`.
    pub fn update_land_value(&mut self, draw: u64)
        requires
            draw < 7,
        ensures
            *final(self) == old(self).spec_update_land_value(draw),
            LAND_VALUE_MIN <= final(self).land_value <= LAND_VALUE_MAX,
    {
        self.land_value = 17 + draw;
    }

    /// Runs one year's event phases on the given draws, in the fixed
    /// order of the year cycle.  A deposal mid-year skips immigration,
    /// harvest, rats and the land market for that year and leaves the
    /// year counter where it was; otherwise the year counter advances.
    ///
    /// The last two preconditions are machine limits: the grain store
    /// must be able to take the largest possible harvest, and the
    /// population the largest possible immigration, without exceeding
    /// `u64`.
    pub fn run_year_events(
        &mut self,
        plague_chance: u64,
        harvest_draw: u64,
        rat_chance: u64,
        rat_share_draw: u64,
        land_draw: u64,
    )
        requires
            old(self).wf(),
            old(self).in_office,
            old(self).year <= 10,
            plague_chance < 100,
            harvest_draw < 6,
            rat_chance < 100,
            rat_share_draw < 21,
            land_draw < 7,
            old(self).grain + 6 * old(self).acres_planted <= u64::MAX,
            old(self).population + (20 * old(self).acres + old(self).grain) / 100 + 1
                <= u64::MAX,
        ensures
            *final(self) == old(self).spec_year_events(
                plague_chance,
                harvest_draw,
                rat_chance,
                rat_share_draw,
                land_draw,
            ),
            final(self).wf(),
            final(self).in_office ==> final(self).year == old(self).year + 1,
            !final(self).in_office ==> final(self).year == old(self).year,
    {
        self.check_for_plague(plague_chance);
        self.count_starved_people();
        self.check_for_deposal();
        if self.in_office {
            proof {
                if self.starved == 0 && self.population >= 1 {
                    let x = 20 * (self.acres as int) + self.grain as int;
                    lemma_div_is_ordered_by_denominator(
                        x,
                        100,
                        100 * (self.population as int),
                    );
                }
            }
            self.count_immigrants();
            self.take_in_harvest(harvest_draw);
            self.check_for_rats(rat_chance, rat_share_draw);
            self.update_land_value(land_draw);
            self.year = self.year + 1;
        }
    }

    /// Runs one year's event phases on fresh draws.  Whatever the draws
    /// turn out to be, the year follows `spec_year_events` for some
    /// draws within their ranges.
    pub fn run_year(&mut self, rng: &mut RandomSource)
        requires
            old(self).wf(),
            old(self).in_office,
            old(self).year <= 10,
            old(self).grain + 6 * old(self).acres_planted <= u64::MAX,
            old(self).population + (20 * old(self).acres + old(self).grain) / 100 + 1
                <= u64::MAX,
        ensures
            exists|cp: u64, hd: u64, cr: u64, rd: u64, ld: u64|
                cp < 100 && hd < 6 && cr < 100 && rd < 21 && ld < 7
                    && *final(self) == old(self).spec_year_events(cp, hd, cr, rd, ld),
            final(self).wf(),
            final(self).in_office ==> final(self).year == old(self).year + 1,
            !final(self).in_office ==> final(self).year == old(self).year,
    {
        let plague_chance = rng.next(100);
        let harvest_draw = rng.next(6);
        let rat_chance = rng.next(100);
        let rat_share_draw = if rat_chance < 40 {
            rng.next(21)
        } else {
            0
        };
        let land_draw = rng.next(7);
        self.run_year_events(plague_chance, harvest_draw, rat_chance, rat_share_draw, land_draw);
        proof {
            assert(plague_chance < 100 && harvest_draw < 6 && rat_chance < 100
                && rat_share_draw < 21 && land_draw < 7
                && *self == old(self).spec_year_events(
                    plague_chance,
                    harvest_draw,
                    rat_chance,
                    rat_share_draw,
                    land_draw,
                ));
        }
    }

}

} // verus!
