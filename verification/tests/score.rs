use hamurabi::score::Rating;
use hamurabi::state::GameState;

#[test]
fn rating_boundaries_on_plantable_acres() {
    // With 100 people, the worker cap of 2000 acres never binds here,
    // so the plantable acreage is the acreage itself.
    let mut s = GameState::starting(2000);
    s.starved = 0;
    s.acres = 599;
    assert_eq!(s.rating(), Rating::Adequate);
    s.acres = 600;
    assert_eq!(s.rating(), Rating::Good);
    s.acres = 799;
    assert_eq!(s.rating(), Rating::Good);
    s.acres = 800;
    assert_eq!(s.rating(), Rating::Superb);
}

#[test]
fn rating_caps_acres_at_twenty_per_person() {
    let mut s = GameState::starting(2000);
    s.starved = 0;
    s.acres = 10_000;
    s.population = 29;
    // 29 people can work 580 acres, under the adequate threshold.
    assert_eq!(s.rating(), Rating::Adequate);
    s.population = 40;
    // 40 people can work 800 acres.
    assert_eq!(s.rating(), Rating::Superb);
}

#[test]
fn rating_terrible_outranks_the_acreage() {
    let mut s = GameState::starting(2000);
    s.acres = 10_000;
    s.population = 100;
    s.starved = 45; // exactly 45 percent of the population
    assert_eq!(s.rating(), Rating::Terrible);
    s.starved = 44;
    assert_eq!(s.rating(), Rating::Superb);
}

#[test]
fn scenario_quiet_first_year() {
    // Start as every reign starts, with a 2000-bushel store; buy and
    // sell nothing, feed the whole store, plant nothing.
    let mut s = GameState::starting(2000);
    assert_eq!(s.try_buy_land(0), Ok(()));
    assert_eq!(s.try_sell_land(0), Ok(()));
    assert_eq!(s.try_feed_people(2000), Ok(()));
    assert_eq!(s.grain, 0);
    // With the store empty, planting anything is rejected.
    assert_eq!(s.try_plant_grain(1000), Err(hamurabi::decisions::RejectReason::NotEnoughGrain));
    assert_eq!(s.try_plant_grain(0), Ok(()));
    // 2000 bushels feed 100 people: nobody starves, and immigrants
    // follow the formula with no starvation.
    s.run_year_events(50, 2, 50, 0, 2);
    assert_eq!(s.starved, 0);
    assert_eq!(s.percent_starved, 0);
    assert_eq!(s.immigrants, (20 * 1000 + 0) / (100 * 100) + 1);
    assert_eq!(s.population, 103);
    assert!(s.in_office);
}

#[test]
fn scenario_feed_and_plant_with_room_for_both() {
    // A store of 3000 leaves room to feed 2000 and still plant 1000.
    let mut s = GameState::starting(3000);
    assert_eq!(s.try_buy_land(0), Ok(()));
    assert_eq!(s.try_sell_land(0), Ok(()));
    assert_eq!(s.try_feed_people(2000), Ok(()));
    assert_eq!(s.try_plant_grain(1000), Ok(()));
    assert_eq!(s.acres_planted, 500);
    assert_eq!(s.grain, 0);
    s.run_year_events(50, 2, 50, 0, 2);
    assert_eq!(s.starved, 0);
    assert_eq!(s.percent_starved, 0);
    assert_eq!(s.harvest_per_acre, 3);
    assert_eq!(s.grain_harvested, 1500);
}
