//! Laws of the year cycle, stated once over all states and proved.

use vstd::prelude::*;
use crate::state::GameState;

verus! {

/// Grain, acres and population can never go negative: every quantity of
/// the state is unsigned, so this holds of every state after every
/// phase.
pub proof fn lemma_resources_never_negative(s: GameState)
    ensures
        s.grain >= 0,
        s.acres >= 0,
        s.population >= 0,
{
}

/// An accepted planting decision sows exactly half the planted bushels
/// as acres: two bushels seed one acre, rounding down.
pub proof fn lemma_accepted_planting_halves(s: GameState, amount: u64)
    ensures
        s.spec_plant_grain(amount).acres_planted == amount / 2,
{
}

/// A plague takes the population to exactly half, rounding down, and
/// everyone above that half is recorded as a victim.
pub proof fn lemma_plague_halves_population(s: GameState, chance: u64)
    requires
        chance < 15,
    ensures
        s.spec_check_plague(chance).population == s.population / 2,
        s.spec_check_plague(chance).plague_victims == s.population - s.population / 2,
{
}

/// Selling within the city's acreage never drives a quantity negative:
/// the acres sold come out of the acres owned and the proceeds only
/// add; and whenever the proceeds fit the ledger, the store grows by
/// exactly the price of the acres sold.
pub proof fn lemma_sell_land_never_negative(s: GameState, acres_to_sell: u64)
    requires
        acres_to_sell <= s.acres,
    ensures
        s.spec_sell_land(acres_to_sell).acres == s.acres - acres_to_sell,
        s.spec_sell_land(acres_to_sell).acres >= 0,
        s.spec_sell_land(acres_to_sell).grain >= 0,
        s.grain + s.land_value * acres_to_sell <= u64::MAX
            ==> s.spec_sell_land(acres_to_sell).grain
                == s.grain + s.land_value * acres_to_sell,
{
}

/// A fully fed population has no starvation: when the grain committed
/// feeds at least everyone (twenty bushels a head), nobody starves, the
/// starvation percentage is zero, and the population stands.
pub proof fn lemma_well_fed_no_starvation(s: GameState)
    requires
        s.grain_fed_to_people / 20 >= s.population,
    ensures
        s.spec_count_starved().starved == 0,
        s.spec_count_starved().percent_starved == 0,
        s.spec_count_starved().population == s.population,
{
}

/// Starvation stops immigration: in a year with any starvation at all,
/// nobody arrives and the population stands.
pub proof fn lemma_starvation_blocks_immigration(s: GameState)
    requires
        s.starved > 0,
    ensures
        s.spec_count_immigrants().immigrants == 0,
        s.spec_count_immigrants().population == s.population,
{
}

/// A deposal ends the year at once: when the starvation count reaches
/// the 45 percent threshold, the immigration, harvest, rat and
/// land-market phases of that year never run, and the year counter
/// stays where it was.
pub proof fn lemma_deposal_skips_rest_of_year(
    s: GameState,
    plague_chance: u64,
    harvest_draw: u64,
    rat_chance: u64,
    rat_share_draw: u64,
    land_draw: u64,
)
    requires
        s.in_office,
        s.spec_check_plague(plague_chance).spec_count_starved().percent_starved >= 45,
    ensures
        ({
            let r = s.spec_year_events(
                plague_chance,
                harvest_draw,
                rat_chance,
                rat_share_draw,
                land_draw,
            );
            let counted = s.spec_check_plague(plague_chance).spec_count_starved();
            &&& !r.in_office
            &&& r == (GameState { in_office: false, ..counted })
            &&& r.year == s.year
            &&& r.immigrants == s.immigrants
            &&& r.harvest_per_acre == s.harvest_per_acre
            &&& r.grain_harvested == s.grain_harvested
            &&& r.amount_eaten_by_rats == s.amount_eaten_by_rats
            &&& r.land_value == s.land_value
            &&& r.grain == s.grain
        }),
{
}

/// The decision phases never touch the calendar: buying, selling,
/// feeding and planting leave the year counter, the office and the
/// population as they were.
pub proof fn lemma_decisions_leave_the_calendar(
    s: GameState,
    buy: u64,
    sell: u64,
    feed: u64,
    plant: u64,
)
    ensures
        s.spec_apply_decisions(buy, sell, feed, plant).year == s.year,
        s.spec_apply_decisions(buy, sell, feed, plant).in_office == s.in_office,
        s.spec_apply_decisions(buy, sell, feed, plant).population == s.population,
{
}

/// A year survived in office advances the year counter by exactly one;
/// with the counter starting at 1 and the reign finished once it
/// passes 10, a full term therefore runs exactly ten years.
pub proof fn lemma_survived_year_advances(
    s: GameState,
    plague_chance: u64,
    harvest_draw: u64,
    rat_chance: u64,
    rat_share_draw: u64,
    land_draw: u64,
)
    requires
        s.in_office,
        s.year <= 10,
    ensures
        ({
            let r = s.spec_year_events(
                plague_chance,
                harvest_draw,
                rat_chance,
                rat_share_draw,
                land_draw,
            );
            &&& r.in_office ==> r.year == s.year + 1
            &&& !r.in_office ==> r.year == s.year
        }),
{
}

/// Every reign whose remaining years match the remaining draws comes
/// to an end, and one that stays in office ends with the counter at 11.
proof fn lemma_term_reaches_the_end(
    s: GameState,
    decisions: Seq<(u64, u64, u64, u64)>,
    draws: Seq<(u64, u64, u64, u64, u64)>,
)
    requires
        decisions.len() == draws.len(),
        s.in_office ==> 1 <= s.year <= 11,
        !s.spec_finished() ==> s.year + draws.len() == 11,
    ensures
        ({
            let r = s.spec_run_term(decisions, draws);
            &&& r.spec_finished()
            &&& r.in_office ==> r.year == 11
        }),
    decreases draws.len(),
{
    if decisions.len() == 0 || draws.len() == 0 || s.spec_finished() {
    } else {
        let dec = decisions[0];
        let dr = draws[0];
        let after_decisions = s.spec_apply_decisions(dec.0, dec.1, dec.2, dec.3);
        lemma_decisions_leave_the_calendar(s, dec.0, dec.1, dec.2, dec.3);
        lemma_survived_year_advances(after_decisions, dr.0, dr.1, dr.2, dr.3, dr.4);
        let after_year = after_decisions.spec_year_events(dr.0, dr.1, dr.2, dr.3, dr.4);
        lemma_term_reaches_the_end(after_year, decisions.drop_first(), draws.drop_first());
    }
}

/// The year loop runs exactly ten iterations unless a deposal ends it
/// early: a reign that begins in year 1 with ten years of decisions
/// and draws always finishes, and one never deposed finishes with the
/// year counter at 11 — ten years run, never more.
pub proof fn lemma_term_runs_ten_years_unless_deposed(
    s: GameState,
    decisions: Seq<(u64, u64, u64, u64)>,
    draws: Seq<(u64, u64, u64, u64, u64)>,
)
    requires
        s.in_office,
        s.year == 1,
        decisions.len() == 10,
        draws.len() == 10,
    ensures
        ({
            let r = s.spec_run_term(decisions, draws);
            &&& r.spec_finished()
            &&& r.in_office ==> r.year == 11
        }),
{
    lemma_term_reaches_the_end(s, decisions, draws);
}

} // verus!
