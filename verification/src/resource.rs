//! Supplies: their kinds, and the stock and production of one of them.

use crate::consts::{BASE_RESOURCE_AMOUNT, BASE_RESOURCE_PRODUCTION, MAX_PRODUCTION};
use vstd::prelude::*;

verus! {

/// The value itself, or zero where it is negative.
pub open spec fn floor_at_zero(v: int) -> int {
    if v <= 0 {
        0
    } else {
        v
    }
}

/// The value itself, or the nearer bound where it lies outside `lo..=hi`.
pub open spec fn clamp(v: int, lo: int, hi: int) -> int {
    if v < lo {
        lo
    } else if v > hi {
        hi
    } else {
        v
    }
}

/// Whether a mathematical integer can be held in an `i32`.
pub open spec fn fits_i32(v: int) -> bool {
    i32::MIN <= v <= i32::MAX
}

/// One of the three kinds of supply.
#[derive(PartialEq, Eq, Hash, Copy, Debug, Clone, Structural)]
pub enum ResourceType {
    Tools,
    Magic,
    Soldiers,
}

impl Default for ResourceType {
    fn default() -> (kind: ResourceType)
        ensures
            kind == ResourceType::Tools,
    {
        ResourceType::Tools
    }
}

/// Stock and production of one supply, as unbounded integers.
pub struct ResourceModel {
    pub amount: int,
    pub production: int,
}

impl ResourceModel {
    /// The stock is never negative and the production stays within `1..=MAX_PRODUCTION`.
    pub open spec fn wf(self) -> bool {
        &&& self.amount >= 0
        &&& 1 <= self.production <= MAX_PRODUCTION
    }

    /// Both numbers can be held in an `i32`.
    pub open spec fn representable(self) -> bool {
        fits_i32(self.amount) && fits_i32(self.production)
    }

    /// The supply a match starts with.
    pub open spec fn base() -> ResourceModel {
        ResourceModel {
            amount: BASE_RESOURCE_AMOUNT as int,
            production: BASE_RESOURCE_PRODUCTION as int,
        }
    }

    /// The stock moved by `diff`, floored at zero.
    pub open spec fn change_amount(self, diff: int) -> ResourceModel {
        ResourceModel { amount: floor_at_zero(self.amount + diff), production: self.production }
    }

    /// The production moved by `diff`, kept within `1..=MAX_PRODUCTION`.
    pub open spec fn change_production(self, diff: int) -> ResourceModel {
        ResourceModel {
            amount: self.amount,
            production: clamp(self.production + diff, 1, MAX_PRODUCTION as int),
        }
    }

    /// One turn's production added to the stock.
    pub open spec fn produce(self) -> ResourceModel {
        self.change_amount(self.production)
    }
}

/// Stock and production of one supply.
#[derive(PartialEq, Eq, Copy, Debug, Hash, Clone, Structural)]
pub struct CastleResource {
    pub amount: i32,
    pub production: i32,
}

impl View for CastleResource {
    type V = ResourceModel;

    open spec fn view(&self) -> ResourceModel {
        ResourceModel { amount: self.amount as int, production: self.production as int }
    }
}

/// A shorter name for the stock and production of one supply.
pub type Resource = CastleResource;

impl Default for CastleResource {
    fn default() -> (resource: CastleResource)
        ensures
            resource@ == ResourceModel::base(),
    {
        CastleResource::new()
    }
}

impl CastleResource {
    /// A supply at its starting stock and production.
    pub fn new() -> (resource: CastleResource)
        ensures
            resource@ == ResourceModel::base(),
            resource@.wf(),
    {
        CastleResource { amount: BASE_RESOURCE_AMOUNT, production: BASE_RESOURCE_PRODUCTION }
    }

    /// Whether the supply is well formed.
    pub fn is_well_formed(&self) -> (ok: bool)
        ensures
            ok == self@.wf(),
    {
        self.amount >= 0 && 1 <= self.production && self.production <= MAX_PRODUCTION
    }

    /// Puts the supply back to its starting stock and production.
    pub fn reset(&mut self)
        ensures
            final(self)@ == ResourceModel::base(),
    {
        self.amount = BASE_RESOURCE_AMOUNT;
        self.production = BASE_RESOURCE_PRODUCTION;
    }

    /// Whether `change_amount(diff)` stays within what an `i32` holds.
    pub fn can_change_amount(&self, diff: i32) -> (ok: bool)
        ensures
            ok == self@.change_amount(diff as int).representable(),
    {
        let sum: i64 = self.amount as i64 + diff as i64;
        sum <= i32::MAX as i64
    }

    /// Moves the stock by `diff`; a stock that would fall below zero is emptied.
    pub fn change_amount(&mut self, diff: i32)
        requires
            old(self)@.change_amount(diff as int).representable(),
        ensures
            final(self)@ == old(self)@.change_amount(diff as int),
    {
        let sum: i64 = self.amount as i64 + diff as i64;
        if sum <= 0 {
            self.amount = 0;
        } else {
            self.amount = sum as i32;
        }
    }

    /// Moves the production by `diff`; it never leaves `1..=MAX_PRODUCTION`.
    pub fn change_production(&mut self, diff: i32)
        ensures
            final(self)@ == old(self)@.change_production(diff as int),
    {
        let sum: i64 = self.production as i64 + diff as i64;
        if sum <= 0 {
            self.production = 1;
        } else if sum > MAX_PRODUCTION as i64 {
            self.production = MAX_PRODUCTION;
        } else {
            self.production = sum as i32;
        }
    }

    /// Whether `produce()` stays within what an `i32` holds.
    pub fn can_produce(&self) -> (ok: bool)
        ensures
            ok == self@.produce().representable(),
    {
        self.can_change_amount(self.production)
    }

    /// Adds one turn's production to the stock.
    pub fn produce(&mut self)
        requires
            old(self)@.produce().representable(),
        ensures
            final(self)@ == old(self)@.produce(),
    {
        let production: i32 = self.production;
        self.change_amount(production);
    }
}

} // verus!
