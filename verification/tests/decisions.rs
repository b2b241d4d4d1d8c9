use hamurabi::decisions::RejectReason;
use hamurabi::state::GameState;

#[test]
fn starting_state_values() {
    let s = GameState::starting(2000);
    assert_eq!(s.year, 1);
    assert_eq!(s.population, 100);
    assert_eq!(s.grain, 2000);
    assert_eq!(s.acres, 1000);
    assert_eq!(s.land_value, 19);
    assert_eq!(s.starved, 0);
    assert_eq!(s.percent_starved, 0);
    assert_eq!(s.plague_victims, 0);
    assert_eq!(s.immigrants, 5);
    assert_eq!(s.grain_harvested, 3000);
    assert_eq!(s.harvest_per_acre, 3);
    assert_eq!(s.amount_eaten_by_rats, 200);
    assert_eq!(s.grain_fed_to_people, 0);
    assert_eq!(s.acres_planted, 0);
    assert!(s.in_office);
    assert!(!s.is_finished());
}

#[test]
fn buy_rejects_unaffordable_and_changes_nothing() {
    let mut s = GameState::starting(2000);
    s.grain = 500;
    let before = s;
    // 27 acres at 19 bushels each cost 513, more than the 500 in store.
    assert_eq!(s.try_buy_land(27), Err(RejectReason::NotEnoughGrain));
    assert_eq!(s, before);
    // A rejected request can be followed by an affordable one.
    assert_eq!(s.try_buy_land(26), Ok(()));
    assert_eq!(s.grain, 500 - 19 * 26);
    assert_eq!(s.acres, 1026);
}

#[test]
fn buy_accepts_exact_cost() {
    let mut s = GameState::starting(2000);
    s.grain = 19 * 10;
    assert_eq!(s.try_buy_land(10), Ok(()));
    assert_eq!(s.grain, 0);
    assert_eq!(s.acres, 1010);
}

#[test]
fn sell_rejects_more_than_owned() {
    let mut s = GameState::starting(2000);
    let before = s;
    assert_eq!(s.try_sell_land(1001), Err(RejectReason::NotEnoughAcres));
    assert_eq!(s, before);
    assert_eq!(s.try_sell_land(1000), Ok(()));
    assert_eq!(s.acres, 0);
    assert_eq!(s.grain, 2000 + 19 * 1000);
}

#[test]
fn feed_rejects_more_than_stored() {
    let mut s = GameState::starting(2000);
    let before = s;
    assert_eq!(s.try_feed_people(2001), Err(RejectReason::NotEnoughGrain));
    assert_eq!(s, before);
    assert_eq!(s.try_feed_people(2000), Ok(()));
    assert_eq!(s.grain, 0);
    assert_eq!(s.grain_fed_to_people, 2000);
}

#[test]
fn plant_rejections_name_the_short_resource() {
    let mut s = GameState::starting(2000);
    let before = s;
    // More seed than the store holds.
    assert_eq!(s.try_plant_grain(2001), Err(RejectReason::NotEnoughGrain));
    assert_eq!(s, before);
    // Enough grain, but more than two bushels per owned acre.
    s.grain = 4000;
    s.acres = 100;
    let cramped = s;
    assert_eq!(s.try_plant_grain(201), Err(RejectReason::NotEnoughAcres));
    assert_eq!(s, cramped);
    // Enough grain and land, but more than twenty bushels per person.
    s.acres = 1000;
    s.population = 10;
    let sparse = s;
    assert_eq!(s.try_plant_grain(201), Err(RejectReason::NotEnoughWorkers));
    assert_eq!(s, sparse);
}

#[test]
fn plant_commits_half_the_bushels_as_acres() {
    let mut s = GameState::starting(2000);
    assert_eq!(s.try_plant_grain(1000), Ok(()));
    assert_eq!(s.acres_planted, 500);
    assert_eq!(s.grain, 1000);
    // An odd amount rounds down.
    let mut t = GameState::starting(2000);
    assert_eq!(t.try_plant_grain(999), Ok(()));
    assert_eq!(t.acres_planted, 499);
    assert_eq!(t.grain, 1001);
}

#[test]
fn plant_accepts_exact_limits() {
    let mut s = GameState::starting(2000);
    s.grain = 4000;
    s.acres = 100;
    // Exactly two bushels per acre is accepted.
    assert_eq!(s.try_plant_grain(200), Ok(()));
    assert_eq!(s.acres_planted, 100);
    let mut t = GameState::starting(2000);
    t.population = 10;
    // Exactly twenty bushels per person is accepted.
    assert_eq!(t.try_plant_grain(200), Ok(()));
    assert_eq!(t.acres_planted, 100);
}
