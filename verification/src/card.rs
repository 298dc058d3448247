//! Cards, their effects, and what a card adds up to for either side.

use crate::resource::{fits_i32, ResourceType};
use vstd::prelude::*;

verus! {

/// What one effect of a card does.
#[derive(PartialEq, Eq, Hash, Copy, Debug, Clone, Structural)]
pub enum EffectType {
    /// Changes the per-turn production of a supply.
    ProductionChange(ResourceType, i32),
    /// Deals damage; with `true` the walls are passed over.
    Damage(i32, bool),
    /// Changes the stock of a supply.
    ResourceChange(ResourceType, i32),
    /// Changes the tower's height.
    TowerGrowth(i32),
    /// Changes the walls' strength.
    WallsGrowth(i32),
    /// Does nothing.
    Nothing,
}

impl Default for EffectType {
    fn default() -> (effect_type: EffectType)
        ensures
            effect_type == EffectType::Nothing,
    {
        EffectType::Nothing
    }
}

/// The kinds of effect that add up, without their payload.
#[derive(PartialEq, Eq, Hash, Copy, Debug, Clone, Structural)]
pub enum EffectKind {
    ProductionChange,
    Damage,
    ResourceChange,
    TowerGrowth,
    WallsGrowth,
}

impl EffectType {
    /// The kind of this effect; the inert effect has none.
    pub open spec fn kind(self) -> Option<EffectKind> {
        match self {
            EffectType::ProductionChange(_, _) => Some(EffectKind::ProductionChange),
            EffectType::Damage(_, _) => Some(EffectKind::Damage),
            EffectType::ResourceChange(_, _) => Some(EffectKind::ResourceChange),
            EffectType::TowerGrowth(_) => Some(EffectKind::TowerGrowth),
            EffectType::WallsGrowth(_) => Some(EffectKind::WallsGrowth),
            EffectType::Nothing => None,
        }
    }

    /// The number this effect carries; zero for the inert effect.
    pub open spec fn amount(self) -> int {
        match self {
            EffectType::ProductionChange(_, amount) => amount as int,
            EffectType::Damage(amount, _) => amount as int,
            EffectType::ResourceChange(_, amount) => amount as int,
            EffectType::TowerGrowth(amount) => amount as int,
            EffectType::WallsGrowth(amount) => amount as int,
            EffectType::Nothing => 0,
        }
    }

    /// The supply this effect names; `Magic` where it names none.
    pub open spec fn resource(self) -> ResourceType {
        match self {
            EffectType::ProductionChange(resource, _) => resource,
            EffectType::ResourceChange(resource, _) => resource,
            _ => ResourceType::Magic,
        }
    }

    /// Whether this effect passes over the walls; only damage can.
    pub open spec fn ignores_shield(self) -> bool {
        match self {
            EffectType::Damage(_, ignore_wall) => ignore_wall,
            _ => false,
        }
    }
}

/// One effect of a card, and which side it is aimed at.
#[derive(PartialEq, Eq, Copy, Debug, Clone, Structural)]
pub struct CardEffect {
    /// `true`: aimed at the player who plays the card; `false`: at the opponent.
    pub affects_user: bool,
    pub effect_type: EffectType,
}

impl Default for CardEffect {
    fn default() -> (effect: CardEffect)
        ensures
            effect == (CardEffect { affects_user: false, effect_type: EffectType::Nothing }),
    {
        CardEffect { affects_user: false, effect_type: EffectType::Nothing }
    }
}

impl CardEffect {
    /// An effect that does nothing.
    pub fn empty() -> (effect: CardEffect)
        ensures
            effect == (CardEffect { affects_user: true, effect_type: EffectType::Nothing }),
    {
        CardEffect { affects_user: true, effect_type: EffectType::Nothing }
    }

    /// Whether this effect is of the given kind and aimed at the given side.
    pub open spec fn counts(self, kind: EffectKind, is_user: bool) -> bool {
        self.affects_user == is_user && self.effect_type.kind() == Some(kind)
    }

    /// What this effect adds to the total of `kind` on the side `is_user`.
    pub open spec fn share(self, kind: EffectKind, is_user: bool) -> int {
        if self.counts(kind, is_user) {
            self.effect_type.amount()
        } else {
            0
        }
    }

    /// The amount this effect adds to the total of `kind` on the side
    /// `is_user`, if it counts there at all.
    pub fn counted(&self, kind: EffectKind, is_user: bool) -> (amount: Option<i32>)
        ensures
            amount.is_some() == self.counts(kind, is_user),
            amount.is_some() ==> amount.unwrap() == self.effect_type.amount(),
    {
        if self.affects_user != is_user {
            return None;
        }
        match (self.effect_type, kind) {
            (EffectType::ProductionChange(_, amount), EffectKind::ProductionChange) => Some(amount),
            (EffectType::Damage(amount, _), EffectKind::Damage) => Some(amount),
            (EffectType::ResourceChange(_, amount), EffectKind::ResourceChange) => Some(amount),
            (EffectType::TowerGrowth(amount), EffectKind::TowerGrowth) => Some(amount),
            (EffectType::WallsGrowth(amount), EffectKind::WallsGrowth) => Some(amount),
            _ => None,
        }
    }
}

/// The sum of what the effects of `kind` aimed at the side `is_user` carry.
pub open spec fn total(effects: Seq<CardEffect>, kind: EffectKind, is_user: bool) -> int
    decreases effects.len(),
{
    if effects.len() == 0 {
        0
    } else {
        total(effects.drop_last(), kind, is_user) + effects.last().share(kind, is_user)
    }
}

/// The last effect of `kind` aimed at the side `is_user`, if there is one.
pub open spec fn last_counted(effects: Seq<CardEffect>, kind: EffectKind, is_user: bool) -> Option<
    CardEffect,
>
    decreases effects.len(),
{
    if effects.len() == 0 {
        None
    } else if effects.last().counts(kind, is_user) {
        Some(effects.last())
    } else {
        last_counted(effects.drop_last(), kind, is_user)
    }
}

/// The effect that `last_counted` finds is one of the effects and counts;
/// where it finds none, no effect counts.
pub proof fn lemma_last_counted(effects: Seq<CardEffect>, kind: EffectKind, is_user: bool)
    ensures
        match last_counted(effects, kind, is_user) {
            Some(effect) => effect.counts(kind, is_user) && effects.contains(effect),
            None => forall|i: int| 0 <= i < effects.len() ==> !(#[trigger] effects[i]).counts(kind, is_user),
        },
    decreases effects.len(),
{
    if effects.len() > 0 {
        let rest = effects.drop_last();
        lemma_last_counted(rest, kind, is_user);
        if effects.last().counts(kind, is_user) {
            assert(effects[effects.len() - 1] == effects.last());
        } else {
            match last_counted(rest, kind, is_user) {
                Some(effect) => {
                    let i = choose|i: int| 0 <= i < rest.len() && rest[i] == effect;
                    assert(effects[i] == effect);
                },
                None => {
                    assert forall|i: int| 0 <= i < effects.len() implies !(#[trigger] effects[i]).counts(
                        kind,
                        is_user,
                    ) by {
                        if i < rest.len() {
                            assert(rest[i] == effects[i]);
                        }
                    }
                },
            }
        }
    }
}

/// The supply named by the last effect of `kind` on the side `is_user`;
/// `Magic` where no effect counts.
pub open spec fn last_resource(effects: Seq<CardEffect>, kind: EffectKind, is_user: bool) -> ResourceType {
    match last_counted(effects, kind, is_user) {
        Some(effect) => effect.effect_type.resource(),
        None => ResourceType::Magic,
    }
}

/// Whether the last damage effect on the side `is_user` passes over the
/// walls; `false` where there is no damage.
pub open spec fn last_ignores_shield(effects: Seq<CardEffect>, is_user: bool) -> bool {
    match last_counted(effects, EffectKind::Damage, is_user) {
        Some(effect) => effect.effect_type.ignores_shield(),
        None => false,
    }
}

/// A card as plain mathematical values.
pub struct CardModel {
    pub name: Seq<char>,
    pub id: int,
    pub cost_amount: int,
    pub cost_resource: ResourceType,
    pub effects: Seq<CardEffect>,
}

impl CardModel {
    /// The total of `kind` on the side `is_user` can be held in an `i32`.
    pub open spec fn fits(self, kind: EffectKind, is_user: bool) -> bool {
        fits_i32(total(self.effects, kind, is_user))
    }

    /// The cost is not negative, and every total the card adds up to can be
    /// held in an `i32`.
    pub open spec fn wf(self) -> bool {
        &&& self.cost_amount >= 0
        &&& forall|kind: EffectKind, is_user: bool| #[trigger] self.fits(kind, is_user)
    }
}

/// A card: what it costs and what it does.
#[derive(Debug, PartialEq)]
pub struct Card {
    pub name: String,
    pub id: i32,
    pub cost_amount: i32,
    pub cost_resource: ResourceType,
    pub effects: Vec<CardEffect>,
}

impl View for Card {
    type V = CardModel;

    open spec fn view(&self) -> CardModel {
        CardModel {
            name: self.name@,
            id: self.id as int,
            cost_amount: self.cost_amount as int,
            cost_resource: self.cost_resource,
            effects: self.effects@,
        }
    }
}

impl Clone for Card {
    fn clone(&self) -> (card: Card)
        ensures
            card@ == self@,
    {
        Card {
            name: self.name.clone(),
            id: self.id,
            cost_amount: self.cost_amount,
            cost_resource: self.cost_resource,
            effects: self.effects.clone(),
        }
    }
}

impl Default for Card {
    fn default() -> (card: Card)
        ensures
            card@ == (CardModel {
                name: Seq::empty(),
                id: 0,
                cost_amount: 0,
                cost_resource: ResourceType::Tools,
                effects: Seq::empty(),
            }),
    {
        Card {
            name: String::new(),
            id: 0,
            cost_amount: 0,
            cost_resource: ResourceType::Tools,
            effects: Vec::new(),
        }
    }
}

impl Card {
    /// The total of `kind` on the side `is_user` can be held in an `i32`.
    pub open spec fn fits(&self, kind: EffectKind, is_user: bool) -> bool {
        self@.fits(kind, is_user)
    }

    /// The cost is not negative, and every total the card adds up to can be
    /// held in an `i32`.
    pub open spec fn wf(&self) -> bool {
        self@.wf()
    }

    /// Whether the two cards are equal: in name, number, cost and effects.
    pub fn same_as(&self, other: &Card) -> (same: bool)
        ensures
            same == (self@ == other@),
    {
        if self.id != other.id || self.cost_amount != other.cost_amount || self.cost_resource
            != other.cost_resource || self.name != other.name || self.effects.len()
            != other.effects.len() {
            return false;
        }
        let mut i: usize = 0;
        while i < self.effects.len()
            invariant
                i <= self.effects.len(),
                self.effects.len() == other.effects.len(),
                forall|j: int| 0 <= j < i ==> self.effects@[j] == other.effects@[j],
            decreases self.effects.len() - i,
        {
            if self.effects[i] != other.effects[i] {
                return false;
            }
            i += 1;
        }
        assert(self.effects@ =~= other.effects@);
        true
    }

    /// Adds up the effects of `kind` aimed at the side `is_user`.
    pub fn tally(&self, kind: EffectKind, is_user: bool) -> (sum: i128)
        ensures
            sum == total(self.effects@, kind, is_user),
    {
        let mut sum: i128 = 0;
        let mut i: usize = 0;
        while i < self.effects.len()
            invariant
                i <= self.effects.len(),
                sum == total(self.effects@.take(i as int), kind, is_user),
                -(i as int) * 0x8000_0000 <= sum <= (i as int) * 0x8000_0000,
            decreases self.effects.len() - i,
        {
            proof {
                assert(self.effects@.take(i + 1).drop_last() =~= self.effects@.take(i as int));
            }
            match self.effects[i].counted(kind, is_user) {
                Some(amount) => {
                    sum = sum + amount as i128;
                },
                None => {},
            }
            i += 1;
        }
        proof {
            assert(self.effects@.take(i as int) =~= self.effects@);
        }
        sum
    }

    /// Finds the last effect of `kind` aimed at the side `is_user`.
    pub fn last_of(&self, kind: EffectKind, is_user: bool) -> (found: Option<CardEffect>)
        ensures
            found == last_counted(self.effects@, kind, is_user),
    {
        let mut found: Option<CardEffect> = None;
        let mut i: usize = 0;
        while i < self.effects.len()
            invariant
                i <= self.effects.len(),
                found == last_counted(self.effects@.take(i as int), kind, is_user),
            decreases self.effects.len() - i,
        {
            proof {
                assert(self.effects@.take(i + 1).drop_last() =~= self.effects@.take(i as int));
            }
            if self.effects[i].counted(kind, is_user).is_some() {
                found = Some(self.effects[i]);
            }
            i += 1;
        }
        proof {
            assert(self.effects@.take(i as int) =~= self.effects@);
        }
        found
    }

    /// Whether the card is well formed.
    pub fn is_well_formed(&self) -> (ok: bool)
        ensures
            ok == self.wf(),
    {
        let ok = self.cost_amount >= 0
            && self.tally_fits(EffectKind::ProductionChange, true)
            && self.tally_fits(EffectKind::ProductionChange, false)
            && self.tally_fits(EffectKind::Damage, true)
            && self.tally_fits(EffectKind::Damage, false)
            && self.tally_fits(EffectKind::ResourceChange, true)
            && self.tally_fits(EffectKind::ResourceChange, false)
            && self.tally_fits(EffectKind::TowerGrowth, true)
            && self.tally_fits(EffectKind::TowerGrowth, false)
            && self.tally_fits(EffectKind::WallsGrowth, true)
            && self.tally_fits(EffectKind::WallsGrowth, false);
        ok
    }

    /// Whether the total of `kind` on the side `is_user` can be held in an `i32`.
    pub fn tally_fits(&self, kind: EffectKind, is_user: bool) -> (ok: bool)
        ensures
            ok == self.fits(kind, is_user),
    {
        let sum: i128 = self.tally(kind, is_user);
        i32::MIN as i128 <= sum && sum <= i32::MAX as i128
    }

    /// The change of production that the card brings to the side `is_user`:
    /// the supply named by the last such effect (`Magic` if there is none)
    /// and the sum of all of them.
    pub fn production_change(&self, is_user: bool) -> (change: (ResourceType, i32))
        requires
            self.fits(EffectKind::ProductionChange, is_user),
        ensures
            change.0 == last_resource(self.effects@, EffectKind::ProductionChange, is_user),
            change.1 == total(self.effects@, EffectKind::ProductionChange, is_user),
    {
        proof {
            lemma_last_counted(self.effects@, EffectKind::ProductionChange, is_user);
        }
        let resource = match self.last_of(EffectKind::ProductionChange, is_user) {
            Some(CardEffect { effect_type: EffectType::ProductionChange(resource, _), .. }) => resource,
            _ => ResourceType::Magic,
        };
        (resource, self.tally(EffectKind::ProductionChange, is_user) as i32)
    }

    /// The change of stock that the card brings to the side `is_user`: the
    /// supply named by the last such effect (`Magic` if there is none) and
    /// the sum of all of them.
    pub fn resource_amount_change(&self, is_user: bool) -> (change: (ResourceType, i32))
        requires
            self.fits(EffectKind::ResourceChange, is_user),
        ensures
            change.0 == last_resource(self.effects@, EffectKind::ResourceChange, is_user),
            change.1 == total(self.effects@, EffectKind::ResourceChange, is_user),
    {
        proof {
            lemma_last_counted(self.effects@, EffectKind::ResourceChange, is_user);
        }
        let resource = match self.last_of(EffectKind::ResourceChange, is_user) {
            Some(CardEffect { effect_type: EffectType::ResourceChange(resource, _), .. }) => resource,
            _ => ResourceType::Magic,
        };
        (resource, self.tally(EffectKind::ResourceChange, is_user) as i32)
    }

    /// The damage that the card deals to the side `is_user`: the sum of all
    /// damage effects, and whether the last of them passes over the walls.
    pub fn damage(&self, is_user: bool) -> (damage: (i32, bool))
        requires
            self.fits(EffectKind::Damage, is_user),
        ensures
            damage.0 == total(self.effects@, EffectKind::Damage, is_user),
            damage.1 == last_ignores_shield(self.effects@, is_user),
    {
        let ignore_wall = match self.last_of(EffectKind::Damage, is_user) {
            Some(CardEffect { effect_type: EffectType::Damage(_, ignore_wall), .. }) => ignore_wall,
            _ => false,
        };
        (self.tally(EffectKind::Damage, is_user) as i32, ignore_wall)
    }

    /// By how much the card raises the tower of the side `is_user`.
    pub fn tower_growth(&self, is_user: bool) -> (growth: i32)
        requires
            self.fits(EffectKind::TowerGrowth, is_user),
        ensures
            growth == total(self.effects@, EffectKind::TowerGrowth, is_user),
    {
        self.tally(EffectKind::TowerGrowth, is_user) as i32
    }

    /// By how much the card raises the walls of the side `is_user`.
    pub fn walls_growth(&self, is_user: bool) -> (growth: i32)
        requires
            self.fits(EffectKind::WallsGrowth, is_user),
        ensures
            growth == total(self.effects@, EffectKind::WallsGrowth, is_user),
    {
        self.tally(EffectKind::WallsGrowth, is_user) as i32
    }
}

/// Everything a card adds up to for one side, as unbounded integers.
pub struct Resolution {
    /// The supply whose production changes, and by how much.
    pub production_change: (ResourceType, int),
    /// The supply whose stock changes, and by how much.
    pub resource_amount_change: (ResourceType, int),
    /// The damage dealt, and whether it passes over the walls.
    pub damage: (int, bool),
    pub tower_growth: int,
    pub walls_growth: int,
}

/// What the effects add up to for the side `is_user`.
pub open spec fn resolution(effects: Seq<CardEffect>, is_user: bool) -> Resolution {
    Resolution {
        production_change: (
            last_resource(effects, EffectKind::ProductionChange, is_user),
            total(effects, EffectKind::ProductionChange, is_user),
        ),
        resource_amount_change: (
            last_resource(effects, EffectKind::ResourceChange, is_user),
            total(effects, EffectKind::ResourceChange, is_user),
        ),
        damage: (total(effects, EffectKind::Damage, is_user), last_ignores_shield(effects, is_user)),
        tower_growth: total(effects, EffectKind::TowerGrowth, is_user),
        walls_growth: total(effects, EffectKind::WallsGrowth, is_user),
    }
}

/// Everything a card adds up to for one side.
#[derive(PartialEq, Eq, Copy, Debug, Clone)]
pub struct CardDeltas {
    pub production_change: (ResourceType, i32),
    pub resource_amount_change: (ResourceType, i32),
    pub damage: (i32, bool),
    pub tower_growth: i32,
    pub walls_growth: i32,
}

impl View for CardDeltas {
    type V = Resolution;

    open spec fn view(&self) -> Resolution {
        Resolution {
            production_change: (self.production_change.0, self.production_change.1 as int),
            resource_amount_change: (
                self.resource_amount_change.0,
                self.resource_amount_change.1 as int,
            ),
            damage: (self.damage.0 as int, self.damage.1),
            tower_growth: self.tower_growth as int,
            walls_growth: self.walls_growth as int,
        }
    }
}

impl Card {
    /// What this card adds up to for the side `is_user`.
    pub open spec fn resolution(&self, is_user: bool) -> Resolution {
        resolution(self.effects@, is_user)
    }

    /// Every total of the card on the side `is_user` can be held in an `i32`.
    pub open spec fn fits_side(&self, is_user: bool) -> bool {
        forall|kind: EffectKind| #[trigger] self.fits(kind, is_user)
    }

    /// Asks all five questions of the card at once, for the side `is_user`.
    pub fn resolve(&self, is_user: bool) -> (deltas: CardDeltas)
        requires
            self.fits_side(is_user),
        ensures
            deltas@ == self.resolution(is_user),
    {
        CardDeltas {
            production_change: self.production_change(is_user),
            resource_amount_change: self.resource_amount_change(is_user),
            damage: self.damage(is_user),
            tower_growth: self.tower_growth(is_user),
            walls_growth: self.walls_growth(is_user),
        }
    }
}

/// The effects aimed at the side `is_user`.
pub open spec fn aimed_at(is_user: bool) -> spec_fn(CardEffect) -> bool {
    |effect: CardEffect| effect.affects_user == is_user
}

/// The effects that do anything at all.
pub open spec fn not_inert() -> spec_fn(CardEffect) -> bool {
    |effect: CardEffect| effect.effect_type != EffectType::Nothing
}

/// What a card adds up to depends on nothing but its effects and the side
/// asked for: not on its name, its number or its cost, and not on what was
/// asked before. Two cards with the same effects give the same answers.
pub proof fn lemma_resolution_depends_on_effects_alone(a: Card, b: Card, is_user: bool)
    requires
        a.effects@ == b.effects@,
    ensures
        a.resolution(is_user) == b.resolution(is_user),
{
}

/// Where no effect counts, the total is zero, the supply named is `Magic`
/// and the walls are not passed over. The empty list is one such case.
pub proof fn lemma_nothing_counts(effects: Seq<CardEffect>, kind: EffectKind, is_user: bool)
    requires
        forall|i: int| 0 <= i < effects.len() ==> !(#[trigger] effects[i]).counts(kind, is_user),
    ensures
        total(effects, kind, is_user) == 0,
        last_counted(effects, kind, is_user).is_none(),
        last_resource(effects, kind, is_user) == ResourceType::Magic,
        kind == EffectKind::Damage ==> !last_ignores_shield(effects, is_user),
    decreases effects.len(),
{
    if effects.len() > 0 {
        let rest = effects.drop_last();
        assert forall|i: int| 0 <= i < rest.len() implies !(#[trigger] rest[i]).counts(kind, is_user) by {
            assert(rest[i] == effects[i]);
        }
        lemma_nothing_counts(rest, kind, is_user);
        assert(effects.last() == effects[effects.len() - 1]);
    }
}

/// One more effect at the end adds its share to the total, and is the last
/// counted effect if it counts.
pub proof fn lemma_push(effects: Seq<CardEffect>, effect: CardEffect, kind: EffectKind, is_user: bool)
    ensures
        total(effects.push(effect), kind, is_user) == total(effects, kind, is_user) + effect.share(
            kind,
            is_user,
        ),
        last_counted(effects.push(effect), kind, is_user) == if effect.counts(kind, is_user) {
            Some(effect)
        } else {
            last_counted(effects, kind, is_user)
        },
{
    assert(effects.push(effect).drop_last() =~= effects);
}

/// Totals add up over lists laid end to end, and the last counted effect is
/// that of the second list if it has one, else that of the first.
pub proof fn lemma_concat(a: Seq<CardEffect>, b: Seq<CardEffect>, kind: EffectKind, is_user: bool)
    ensures
        total(a + b, kind, is_user) == total(a, kind, is_user) + total(b, kind, is_user),
        last_counted(a + b, kind, is_user) == if last_counted(b, kind, is_user).is_some() {
            last_counted(b, kind, is_user)
        } else {
            last_counted(a, kind, is_user)
        },
    decreases b.len(),
{
    if b.len() == 0 {
        assert(a + b =~= a);
    } else {
        lemma_concat(a, b.drop_last(), kind, is_user);
        assert((a + b).drop_last() =~= a + b.drop_last());
        assert((a + b).last() == b.last());
    }
}

/// Effects of one kind on one side sum: two of them give the sum of their
/// amounts, not the amount of either.
pub proof fn lemma_two_effects_sum(first: CardEffect, second: CardEffect, kind: EffectKind, is_user: bool)
    requires
        first.counts(kind, is_user),
        second.counts(kind, is_user),
    ensures
        total(seq![first, second], kind, is_user) == first.effect_type.amount()
            + second.effect_type.amount(),
        last_counted(seq![first, second], kind, is_user) == Some(second),
{
    lemma_push(Seq::empty(), first, kind, is_user);
    lemma_push(seq![first], second, kind, is_user);
    assert(Seq::<CardEffect>::empty().push(first) =~= seq![first]);
    assert(seq![first].push(second) =~= seq![first, second]);
}

/// Each side sees its own effects only: of two effects of one kind, one
/// aimed at the player and one at the opponent, the player's side shows the
/// first alone and the opponent's side the second alone, whatever their order.
pub proof fn lemma_sides_are_apart(own: CardEffect, other: CardEffect, kind: EffectKind)
    requires
        own.counts(kind, true),
        other.counts(kind, false),
    ensures
        total(seq![own, other], kind, true) == own.effect_type.amount(),
        total(seq![own, other], kind, false) == other.effect_type.amount(),
        last_counted(seq![own, other], kind, true) == Some(own),
        last_counted(seq![own, other], kind, false) == Some(other),
        total(seq![other, own], kind, true) == own.effect_type.amount(),
        total(seq![other, own], kind, false) == other.effect_type.amount(),
        last_counted(seq![other, own], kind, true) == Some(own),
        last_counted(seq![other, own], kind, false) == Some(other),
{
    lemma_push(Seq::empty(), own, kind, true);
    lemma_push(Seq::empty(), own, kind, false);
    lemma_push(seq![own], other, kind, true);
    lemma_push(seq![own], other, kind, false);
    lemma_push(Seq::empty(), other, kind, true);
    lemma_push(Seq::empty(), other, kind, false);
    lemma_push(seq![other], own, kind, true);
    lemma_push(seq![other], own, kind, false);
    assert(Seq::<CardEffect>::empty().push(own) =~= seq![own]);
    assert(Seq::<CardEffect>::empty().push(other) =~= seq![other]);
    assert(seq![own].push(other) =~= seq![own, other]);
    assert(seq![other].push(own) =~= seq![other, own]);
}

/// What a side sees is what the effects aimed at it give: the effects aimed
/// at the other side can be struck out without changing any answer.
pub proof fn lemma_side_filtering(effects: Seq<CardEffect>, kind: EffectKind, is_user: bool)
    ensures
        total(effects.filter(aimed_at(is_user)), kind, is_user) == total(effects, kind, is_user),
        last_counted(effects.filter(aimed_at(is_user)), kind, is_user) == last_counted(
            effects,
            kind,
            is_user,
        ),
        total(effects.filter(aimed_at(!is_user)), kind, is_user) == 0,
        last_counted(effects.filter(aimed_at(!is_user)), kind, is_user).is_none(),
    decreases effects.len(),
{
    if effects.len() == 0 {
        assert(effects.filter(aimed_at(is_user)) =~= effects) by {
            effects.lemma_filter_len(aimed_at(is_user));
        }
        assert(effects.filter(aimed_at(!is_user)) =~= effects) by {
            effects.lemma_filter_len(aimed_at(!is_user));
        }
    } else {
        let rest = effects.drop_last();
        let last = effects.last();
        lemma_side_filtering(rest, kind, is_user);
        assert(rest.push(last) =~= effects);
        rest.lemma_filter_push(last, aimed_at(is_user));
        rest.lemma_filter_push(last, aimed_at(!is_user));
        lemma_push(rest.filter(aimed_at(is_user)), last, kind, is_user);
        lemma_push(rest.filter(aimed_at(!is_user)), last, kind, is_user);
    }
}

/// Inert effects change no answer: they can be struck out of the list.
pub proof fn lemma_inert_effects_do_nothing(effects: Seq<CardEffect>, kind: EffectKind, is_user: bool)
    ensures
        total(effects.filter(not_inert()), kind, is_user) == total(effects, kind, is_user),
        last_counted(effects.filter(not_inert()), kind, is_user) == last_counted(
            effects,
            kind,
            is_user,
        ),
    decreases effects.len(),
{
    if effects.len() == 0 {
        assert(effects.filter(not_inert()) =~= effects) by {
            effects.lemma_filter_len(not_inert());
        }
    } else {
        let rest = effects.drop_last();
        let last = effects.last();
        lemma_inert_effects_do_nothing(rest, kind, is_user);
        assert(rest.push(last) =~= effects);
        rest.lemma_filter_push(last, not_inert());
        lemma_push(rest.filter(not_inert()), last, kind, is_user);
    }
}

/// Taking one effect out of the list takes its share out of the total.
pub proof fn lemma_remove(effects: Seq<CardEffect>, i: int, kind: EffectKind, is_user: bool)
    requires
        0 <= i < effects.len(),
    ensures
        total(effects, kind, is_user) == total(effects.remove(i), kind, is_user) + effects[i].share(
            kind,
            is_user,
        ),
    decreases effects.len(),
{
    if i == effects.len() - 1 {
        assert(effects.remove(i) =~= effects.drop_last());
    } else {
        lemma_remove(effects.drop_last(), i, kind, is_user);
        assert(effects.remove(i).drop_last() =~= effects.drop_last().remove(i));
        assert(effects.remove(i).last() == effects.last());
    }
}

/// Totals do not depend on the order of the effects: two lists that hold the
/// same effects, each as often as the other, have the same totals. (Which
/// supply is named, and whether the walls are passed over, is taken from the
/// last effect that counts, and so does depend on the order.)
pub proof fn lemma_total_ignores_order(
    a: Seq<CardEffect>,
    b: Seq<CardEffect>,
    kind: EffectKind,
    is_user: bool,
)
    requires
        a.to_multiset() == b.to_multiset(),
    ensures
        total(a, kind, is_user) == total(b, kind, is_user),
    decreases a.len(),
{
    vstd::seq_lib::to_multiset_len(a);
    vstd::seq_lib::to_multiset_len(b);
    if a.len() > 0 {
        let x = a.last();
        let rest = a.drop_last();
        assert(rest.push(x) =~= a);
        vstd::seq_lib::to_multiset_build(rest, x);
        vstd::seq_lib::to_multiset_contains(b, x);
        assert(a.to_multiset().count(x) > 0);
        let j = choose|j: int| 0 <= j < b.len() && b[j] == x;
        vstd::seq_lib::to_multiset_remove(b, j);
        assert(rest.to_multiset() =~= b.remove(j).to_multiset());
        lemma_total_ignores_order(rest, b.remove(j), kind, is_user);
        lemma_remove(b, j, kind, is_user);
    }
}

} // verus!
