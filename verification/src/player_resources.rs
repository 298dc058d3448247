//! The three supplies of one player.

use crate::card::Card;
use crate::resource::{CastleResource, ResourceModel, ResourceType};
use vstd::prelude::*;

verus! {

/// The three supplies of one player, as unbounded integers.
pub struct SupplyModel {
    pub tools: ResourceModel,
    pub magic: ResourceModel,
    pub soldiers: ResourceModel,
}

impl SupplyModel {
    /// Each supply is well formed.
    pub open spec fn wf(self) -> bool {
        self.tools.wf() && self.magic.wf() && self.soldiers.wf()
    }

    /// Each supply can be held in `i32` fields.
    pub open spec fn representable(self) -> bool {
        self.tools.representable() && self.magic.representable() && self.soldiers.representable()
    }

    /// The supplies a match starts with.
    pub open spec fn base() -> SupplyModel {
        SupplyModel {
            tools: ResourceModel::base(),
            magic: ResourceModel::base(),
            soldiers: ResourceModel::base(),
        }
    }

    /// The supply of the given kind.
    pub open spec fn get(self, res_type: ResourceType) -> ResourceModel {
        match res_type {
            ResourceType::Tools => self.tools,
            ResourceType::Magic => self.magic,
            ResourceType::Soldiers => self.soldiers,
        }
    }

    /// These supplies with the one of the given kind replaced.
    pub open spec fn with(self, res_type: ResourceType, resource: ResourceModel) -> SupplyModel {
        match res_type {
            ResourceType::Tools => SupplyModel { tools: resource, ..self },
            ResourceType::Magic => SupplyModel { magic: resource, ..self },
            ResourceType::Soldiers => SupplyModel { soldiers: resource, ..self },
        }
    }

    /// The stock of one supply moved by `amount`, floored at zero.
    pub open spec fn change_amount(self, res_type: ResourceType, amount: int) -> SupplyModel {
        self.with(res_type, self.get(res_type).change_amount(amount))
    }

    /// The production of one supply moved by `amount`, kept within its bounds.
    pub open spec fn change_production(self, res_type: ResourceType, amount: int) -> SupplyModel {
        self.with(res_type, self.get(res_type).change_production(amount))
    }

    /// One turn's production added to every stock.
    pub open spec fn update(self) -> SupplyModel {
        SupplyModel {
            tools: self.tools.produce(),
            magic: self.magic.produce(),
            soldiers: self.soldiers.produce(),
        }
    }

    /// Whether the stock of the supply that a card costs covers that cost.
    pub open spec fn can_afford(self, cost_resource: ResourceType, cost_amount: int) -> bool {
        self.get(cost_resource).amount >= cost_amount
    }
}

/// The three supplies of one player.
#[derive(PartialEq, Eq, Copy, Debug, Clone, Structural)]
pub struct PlayerResources {
    pub tools: CastleResource,
    pub magic: CastleResource,
    pub soldiers: CastleResource,
}

impl View for PlayerResources {
    type V = SupplyModel;

    open spec fn view(&self) -> SupplyModel {
        SupplyModel { tools: self.tools@, magic: self.magic@, soldiers: self.soldiers@ }
    }
}

impl Default for PlayerResources {
    fn default() -> (resources: PlayerResources)
        ensures
            resources@ == SupplyModel::base(),
    {
        PlayerResources {
            tools: CastleResource::new(),
            magic: CastleResource::new(),
            soldiers: CastleResource::new(),
        }
    }
}

impl PlayerResources {
    /// Whether the supplies are well formed.
    pub fn is_well_formed(&self) -> (ok: bool)
        ensures
            ok == self@.wf(),
    {
        self.tools.is_well_formed() && self.magic.is_well_formed() && self.soldiers.is_well_formed()
    }

    /// Whether `update_resources()` stays within what `i32` fields hold.
    pub fn can_update_resources(&self) -> (ok: bool)
        ensures
            ok == self@.update().representable(),
    {
        self.tools.can_produce() && self.magic.can_produce() && self.soldiers.can_produce()
    }

    /// Adds one turn's production to every stock.
    pub fn update_resources(&mut self)
        requires
            old(self)@.update().representable(),
        ensures
            final(self)@ == old(self)@.update(),
    {
        self.tools.produce();
        self.magic.produce();
        self.soldiers.produce();
    }

    /// Whether `change_resource_amount(res_type, amount)` stays within what
    /// `i32` fields hold.
    pub fn can_change_resource_amount(&self, res_type: ResourceType, amount: i32) -> (ok: bool)
        ensures
            ok == self@.change_amount(res_type, amount as int).representable(),
    {
        self.get(res_type).can_change_amount(amount)
    }

    /// Moves the stock of one supply by `amount`; a stock that would fall
    /// below zero is emptied.
    pub fn change_resource_amount(&mut self, res_type: ResourceType, amount: i32)
        requires
            old(self)@.change_amount(res_type, amount as int).representable(),
        ensures
            final(self)@ == old(self)@.change_amount(res_type, amount as int),
    {
        match res_type {
            ResourceType::Magic => self.magic.change_amount(amount),
            ResourceType::Tools => self.tools.change_amount(amount),
            ResourceType::Soldiers => self.soldiers.change_amount(amount),
        };
    }

    /// Moves the production of one supply by `amount`; it never leaves
    /// `1..=MAX_PRODUCTION`.
    pub fn change_resource_production(&mut self, res_type: ResourceType, amount: i32)
        ensures
            final(self)@ == old(self)@.change_production(res_type, amount as int),
    {
        match res_type {
            ResourceType::Magic => self.magic.change_production(amount),
            ResourceType::Tools => self.tools.change_production(amount),
            ResourceType::Soldiers => self.soldiers.change_production(amount),
        };
    }

    /// The supply of the given kind.
    pub fn get(&self, res_type: ResourceType) -> (resource: &CastleResource)
        ensures
            resource@ == self@.get(res_type),
            *resource == match res_type {
                ResourceType::Tools => self.tools,
                ResourceType::Magic => self.magic,
                ResourceType::Soldiers => self.soldiers,
            },
    {
        match res_type {
            ResourceType::Magic => &self.magic,
            ResourceType::Tools => &self.tools,
            ResourceType::Soldiers => &self.soldiers,
        }
    }

    /// Whether the stock of the supply that the card costs covers its cost.
    pub fn can_afford_card(&self, card: &Card) -> (affordable: bool)
        ensures
            affordable == self@.can_afford(card.cost_resource, card.cost_amount as int),
    {
        let current_amount: i32 = self.get(card.cost_resource).amount;
        current_amount >= card.cost_amount
    }
}

impl Card {
    /// Whether the given supplies cover the cost of this card.
    pub fn can_aford(&self, resources: &PlayerResources) -> (affordable: bool)
        ensures
            affordable == resources@.can_afford(self.cost_resource, self.cost_amount as int),
            affordable == (resources@.get(self.cost_resource).amount >= self.cost_amount),
    {
        resources.can_afford_card(self)
    }
}

} // verus!
