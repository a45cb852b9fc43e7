//! The resource reservation ledger: a mirror of the spendable resources that is
//! debited as soon as an order is issued, before the engine confirms it.

use vstd::prelude::*;

verus! {

/// Price of one production item.
#[derive(Clone, Copy, Debug, PartialEq, Eq)]
pub struct Cost {
    pub minerals: u32,
    pub vespene: u32,
    pub supply: u32,
}

/// Returned by [`Ledger::reserve`] when the ledger cannot cover a cost.
#[derive(Clone, Copy, Debug, PartialEq, Eq)]
pub struct InsufficientResources;

/// What is left to spend in the current tick.
#[derive(Clone, Copy, Debug, PartialEq, Eq)]
pub struct Ledger {
    pub minerals: u32,
    pub vespene: u32,
    pub supply_used: u32,
    pub supply_cap: u32,
}

/// One reservation request: a cost, and whether its supply is committed with it.
pub struct Request {
    pub cost: Cost,
    pub with_supply: bool,
}

impl Ledger {
    /// Supply that can still be committed; zero when the cap has been overrun.
    pub open spec fn supply_left(self) -> int {
        if self.supply_cap >= self.supply_used {
            self.supply_cap - self.supply_used
        } else {
            0
        }
    }

    /// Whether `cost` is covered. Supply counts only when `with_supply` is set.
    pub open spec fn affords(self, cost: Cost, with_supply: bool) -> bool {
        &&& cost.minerals <= self.minerals
        &&& cost.vespene <= self.vespene
        &&& with_supply ==> cost.supply <= self.supply_left()
    }

    /// The ledger after `cost` has been taken out of it.
    pub open spec fn debited(self, cost: Cost, with_supply: bool) -> Ledger {
        Ledger {
            minerals: (self.minerals - cost.minerals) as u32,
            vespene: (self.vespene - cost.vespene) as u32,
            supply_used: if with_supply {
                (self.supply_used + cost.supply) as u32
            } else {
                self.supply_used
            },
            supply_cap: self.supply_cap,
        }
    }

    /// The ledger after one reservation attempt: debited when covered, untouched otherwise.
    pub open spec fn after(self, cost: Cost, with_supply: bool) -> Ledger {
        if self.affords(cost, with_supply) {
            self.debited(cost, with_supply)
        } else {
            self
        }
    }

    /// The ledger after the first `n` requests of `requests` were attempted in order.
    pub open spec fn after_all(self, requests: Seq<Request>, n: int) -> Ledger
        decreases n,
    {
        if n <= 0 {
            self
        } else {
            self.after_all(requests, n - 1).after(
                requests[n - 1].cost,
                requests[n - 1].with_supply,
            )
        }
    }

    /// Minerals handed out by the first `n` requests of `requests`.
    pub open spec fn minerals_granted(self, requests: Seq<Request>, n: int) -> int
        decreases n,
    {
        if n <= 0 {
            0
        } else {
            let before = self.after_all(requests, n - 1);
            let r = requests[n - 1];
            self.minerals_granted(requests, n - 1) + if before.affords(r.cost, r.with_supply) {
                r.cost.minerals as int
            } else {
                0
            }
        }
    }

    /// Vespene handed out by the first `n` requests of `requests`.
    pub open spec fn vespene_granted(self, requests: Seq<Request>, n: int) -> int
        decreases n,
    {
        if n <= 0 {
            0
        } else {
            let before = self.after_all(requests, n - 1);
            let r = requests[n - 1];
            self.vespene_granted(requests, n - 1) + if before.affords(r.cost, r.with_supply) {
                r.cost.vespene as int
            } else {
                0
            }
        }
    }

    /// Supply handed out by the first `n` requests of `requests`.
    pub open spec fn supply_granted(self, requests: Seq<Request>, n: int) -> int
        decreases n,
    {
        if n <= 0 {
            0
        } else {
            let before = self.after_all(requests, n - 1);
            let r = requests[n - 1];
            self.supply_granted(requests, n - 1) + if r.with_supply && before.affords(
                r.cost,
                r.with_supply,
            ) {
                r.cost.supply as int
            } else {
                0
            }
        }
    }

    /// Mirrors the authoritative counters of a tick.
    pub fn new(minerals: u32, vespene: u32, supply_used: u32, supply_cap: u32) -> (ledger: Ledger)
        ensures
            ledger == (Ledger { minerals, vespene, supply_used, supply_cap }),
    {
        Ledger { minerals, vespene, supply_used, supply_cap }
    }

    /// Supply that can still be committed.
    pub fn remaining_supply(&self) -> (left: u32)
        ensures
            left == self.supply_left(),
    {
        if self.supply_cap >= self.supply_used {
            self.supply_cap - self.supply_used
        } else {
            0
        }
    }

    /// Checks `cost` against the mirror without changing it.
    pub fn can_afford(&self, cost: Cost, with_supply: bool) -> (ok: bool)
        ensures
            ok == self.affords(cost, with_supply),
    {
        cost.minerals <= self.minerals && cost.vespene <= self.vespene && (!with_supply
            || cost.supply <= self.remaining_supply())
    }

    /// Takes `cost` out of the mirror, or leaves the mirror as it was and reports
    /// that the cost is not covered.
    pub fn reserve(&mut self, cost: Cost, with_supply: bool) -> (outcome: Result<
        (),
        InsufficientResources,
    >)
        ensures
            outcome is Ok <==> old(self).affords(cost, with_supply),
            *final(self) == old(self).after(cost, with_supply),
            outcome is Err ==> *final(self) == *old(self),
            outcome is Ok ==> {
                &&& final(self).minerals + cost.minerals == old(self).minerals
                &&& final(self).vespene + cost.vespene == old(self).vespene
                &&& final(self).supply_cap == old(self).supply_cap
                &&& final(self).supply_used == old(self).supply_used + if with_supply {
                    cost.supply as int
                } else {
                    0
                }
            },
    {
        if !self.can_afford(cost, with_supply) {
            return Err(InsufficientResources);
        }
        self.minerals = self.minerals - cost.minerals;
        self.vespene = self.vespene - cost.vespene;
        if with_supply {
            self.supply_used = self.supply_used + cost.supply;
        }
        Ok(())
    }
}

/// Within one tick no chain of reservations overdraws the ledger: whatever is
/// requested, in whatever order, the amounts granted add up exactly to what
/// left the ledger, so they never exceed what the tick started with, and the
/// supply committed never passes the cap by more than it already did.
pub proof fn reservations_never_overdraw(start: Ledger, requests: Seq<Request>, n: int)
    requires
        0 <= n <= requests.len(),
    ensures
        start.after_all(requests, n).minerals + start.minerals_granted(requests, n)
            == start.minerals,
        start.after_all(requests, n).vespene + start.vespene_granted(requests, n)
            == start.vespene,
        start.after_all(requests, n).supply_used == start.supply_used + start.supply_granted(
            requests,
            n,
        ),
        start.after_all(requests, n).supply_cap == start.supply_cap,
        0 <= start.minerals_granted(requests, n) <= start.minerals,
        0 <= start.vespene_granted(requests, n) <= start.vespene,
        0 <= start.supply_granted(requests, n) <= start.supply_left(),
    decreases n,
{
    if n > 0 {
        reservations_never_overdraw(start, requests, n - 1);
    }
}

/// A reservation that is not covered changes nothing, and one that is covered
/// leaves every field at or above zero.
pub proof fn reserve_is_all_or_nothing(ledger: Ledger, cost: Cost, with_supply: bool)
    ensures
        !ledger.affords(cost, with_supply) ==> ledger.after(cost, with_supply) == ledger,
        ledger.affords(cost, with_supply) ==> {
            &&& ledger.minerals - cost.minerals >= 0
            &&& ledger.vespene - cost.vespene >= 0
            &&& with_supply ==> ledger.supply_left() - cost.supply >= 0
            &&& ledger.after(cost, with_supply).minerals == ledger.minerals - cost.minerals
            &&& ledger.after(cost, with_supply).vespene == ledger.vespene - cost.vespene
        },
{
}

} // verus!
