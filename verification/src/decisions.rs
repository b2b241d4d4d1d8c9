//! The four validated player decisions: buy land, sell land, feed the
//! people, plant grain.
//!
//! Each decision either commits its mutation, or rejects the request and
//! leaves the state exactly as it was, reporting which resource fell
//! short.  The front end keeps asking until a request is accepted.

use vstd::prelude::*;
use crate::state::GameState;

verus! {

/// Why a decision was rejected: the named resource cannot cover the
/// request.
#[derive(Clone, Copy, Debug, PartialEq, Eq, Structural)]
pub enum RejectReason {
    /// The grain store cannot cover the request.
    NotEnoughGrain,
    /// The city owns too few acres.
    NotEnoughAcres,
    /// Too few people to work the requested planting.
    NotEnoughWorkers,
}

impl GameState {
    /// The state after buying `acres_to_buy` acres at the current land
    /// price: the cost leaves the grain store, the acres arrive.
    pub open spec fn spec_buy_land(self, acres_to_buy: u64) -> GameState {
        GameState {
            grain: (self.grain - self.land_value * acres_to_buy) as u64,
            acres: (self.acres + acres_to_buy) as u64,
            ..self
        }
    }

    /// The state after selling `acres_to_sell` acres at the current land
    /// price: the proceeds join the grain store, the acres leave.
    pub open spec fn spec_sell_land(self, acres_to_sell: u64) -> GameState {
        GameState {
            grain: (self.grain + self.land_value * acres_to_sell) as u64,
            acres: (self.acres - acres_to_sell) as u64,
            ..self
        }
    }

    /// The state after committing `amount` bushels to feeding: the grain
    /// leaves the store and the committed amount is recorded.
    pub open spec fn spec_feed_people(self, amount: u64) -> GameState {
        GameState {
            grain: (self.grain - amount) as u64,
            grain_fed_to_people: amount,
            ..self
        }
    }

    /// The state after planting `amount` bushels: two bushels sow one
    /// acre, so `amount / 2` acres are planted, and the seed grain leaves
    /// the store.
    pub open spec fn spec_plant_grain(self, amount: u64) -> GameState {
        GameState {
            grain: (self.grain - amount) as u64,
            acres_planted: (amount / 2) as u64,
            ..self
        }
    }

    /// One year's accepted decisions, applied in the order the year
    /// asks them: buy land, sell land, feed the people, plant grain.
    pub open spec fn spec_apply_decisions(self, buy: u64, sell: u64, feed: u64, plant: u64)
        -> GameState
    {
        self.spec_buy_land(buy)
            .spec_sell_land(sell)
            .spec_feed_people(feed)
            .spec_plant_grain(plant)
    }

    /// Buys land if the grain store covers the cost, and otherwise
    /// rejects the request and changes nothing.
    pub fn try_buy_land(&mut self, acres_to_buy: u64) -> (r: Result<(), RejectReason>)
        requires
            old(self).wf(),
            old(self).acres + acres_to_buy <= u64::MAX,
        ensures
            final(self).wf(),
            old(self).land_value * acres_to_buy <= old(self).grain ==> {
                &&& r == Ok::<(), RejectReason>(())
                &&& *final(self) == old(self).spec_buy_land(acres_to_buy)
            },
            old(self).land_value * acres_to_buy > old(self).grain ==> {
                &&& r == Err::<(), RejectReason>(RejectReason::NotEnoughGrain)
                &&& *final(self) == *old(self)
            },
    {
        proof {
            let lv = self.land_value;
            assert(lv * acres_to_buy <= 23 * (u64::MAX as int)) by (nonlinear_arith)
                requires
                    lv <= 23,
                    acres_to_buy <= u64::MAX,
            ;
        }
        let cost_wide: u128 = (self.land_value as u128) * (acres_to_buy as u128);
        if cost_wide <= self.grain as u128 {
            let cost: u64 = cost_wide as u64;
            self.grain = self.grain - cost;
            self.acres = self.acres + acres_to_buy;
            Ok(())
        } else {
            Err(RejectReason::NotEnoughGrain)
        }
    }

    /// Sells land if the city owns that much, and otherwise rejects the
    /// request and changes nothing.
    pub fn try_sell_land(&mut self, acres_to_sell: u64) -> (r: Result<(), RejectReason>)
        requires
            old(self).wf(),
            old(self).grain + old(self).land_value * acres_to_sell <= u64::MAX,
        ensures
            final(self).wf(),
            acres_to_sell <= old(self).acres ==> {
                &&& r == Ok::<(), RejectReason>(())
                &&& *final(self) == old(self).spec_sell_land(acres_to_sell)
            },
            acres_to_sell > old(self).acres ==> {
                &&& r == Err::<(), RejectReason>(RejectReason::NotEnoughAcres)
                &&& *final(self) == *old(self)
            },
    {
        if acres_to_sell <= self.acres {
            let proceeds: u64 = self.land_value * acres_to_sell;
            self.grain = self.grain + proceeds;
            self.acres = self.acres - acres_to_sell;
            Ok(())
        } else {
            Err(RejectReason::NotEnoughAcres)
        }
    }

    /// Commits grain to feeding if the store covers it, and otherwise
    /// rejects the request and changes nothing.
    pub fn try_feed_people(&mut self, amount: u64) -> (r: Result<(), RejectReason>)
        requires
            old(self).wf(),
        ensures
            final(self).wf(),
            amount <= old(self).grain ==> {
                &&& r == Ok::<(), RejectReason>(())
                &&& *final(self) == old(self).spec_feed_people(amount)
            },
            amount > old(self).grain ==> {
                &&& r == Err::<(), RejectReason>(RejectReason::NotEnoughGrain)
                &&& *final(self) == *old(self)
            },
    {
        if amount <= self.grain {
            self.grain = self.grain - amount;
            self.grain_fed_to_people = amount;
            Ok(())
        } else {
            Err(RejectReason::NotEnoughGrain)
        }
    }

    /// Plants grain if the store holds the seed, the city owns enough
    /// land (two bushels per acre), and the people can work it (each
    /// person farms at most ten acres, so at most twenty bushels per
    /// person); otherwise rejects the request, naming the first resource
    /// that fell short, and changes nothing.
    pub fn try_plant_grain(&mut self, amount: u64) -> (r: Result<(), RejectReason>)
        requires
            old(self).wf(),
        ensures
            final(self).wf(),
            amount > old(self).grain ==> {
                &&& r == Err::<(), RejectReason>(RejectReason::NotEnoughGrain)
                &&& *final(self) == *old(self)
            },
            amount <= old(self).grain && amount > 2 * old(self).acres ==> {
                &&& r == Err::<(), RejectReason>(RejectReason::NotEnoughAcres)
                &&& *final(self) == *old(self)
            },
            amount <= old(self).grain && amount <= 2 * old(self).acres
                && amount > 20 * old(self).population ==> {
                &&& r == Err::<(), RejectReason>(RejectReason::NotEnoughWorkers)
                &&& *final(self) == *old(self)
            },
            amount <= old(self).grain && amount <= 2 * old(self).acres
                && amount <= 20 * old(self).population ==> {
                &&& r == Ok::<(), RejectReason>(())
                &&& *final(self) == old(self).spec_plant_grain(amount)
            },
    {
        if amount > self.grain {
            return Err(RejectReason::NotEnoughGrain);
        }
        let acres_short: bool = if self.acres >= 0x8000_0000_0000_0000u64 {
            false
        } else {
            amount > 2 * self.acres
        };
        if acres_short {
            return Err(RejectReason::NotEnoughAcres);
        }
        let workers_short: bool = if self.population > u64::MAX / 20 {
            false
        } else {
            amount > 20 * self.population
        };
        if workers_short {
            return Err(RejectReason::NotEnoughWorkers);
        }
        self.acres_planted = amount / 2;
        self.grain = self.grain - amount;
        Ok(())
    }
}

} // verus!
