//! The catalog of cards that hands are drawn from, and what makes it fit to
//! play with.

use crate::card::{
    last_counted, lemma_last_counted, total, Card, CardEffect, CardModel, EffectKind,
};
use crate::hand::{all_wf, deck_view};
use vstd::prelude::*;

verus! {

/// Why a catalog is not fit to play with.
#[derive(PartialEq, Eq, Copy, Clone, Debug, Structural)]
pub enum CatalogError {
    /// The catalog holds no card.
    Empty,
    /// The card at `index` has a negative cost.
    NegativeCost { index: usize },
    /// The card at `index` holds effects that add up to more than an `i32` holds.
    TotalsOutOfRange { index: usize },
}

/// Whether the card at `index` is the first of the catalog that is not well formed.
pub open spec fn first_malformed(cards: Seq<CardModel>, index: int) -> bool {
    &&& 0 <= index < cards.len()
    &&& !cards[index].wf()
    &&& forall|j: int| 0 <= j < index ==> (#[trigger] cards[j]).wf()
}

/// Checks that the catalog is fit to play with: it holds a card, and every
/// card is well formed. Tells of the first card that is not what is wrong
/// with it.
pub fn validate(cards: &[Card]) -> (result: Result<(), CatalogError>)
    ensures
        match result {
            Ok(()) => cards@.len() > 0 && all_wf(deck_view(cards@)),
            Err(CatalogError::Empty) => cards@.len() == 0,
            Err(CatalogError::NegativeCost { index }) => first_malformed(
                deck_view(cards@),
                index as int,
            ) && cards@[index as int].cost_amount < 0,
            Err(CatalogError::TotalsOutOfRange { index }) => first_malformed(
                deck_view(cards@),
                index as int,
            ) && cards@[index as int].cost_amount >= 0,
        },
{
    if cards.len() == 0 {
        return Err(CatalogError::Empty);
    }
    let mut i: usize = 0;
    while i < cards.len()
        invariant
            i <= cards@.len(),
            forall|j: int| 0 <= j < i ==> (#[trigger] deck_view(cards@)[j]).wf(),
        decreases cards@.len() - i,
    {
        if cards[i].cost_amount < 0 {
            return Err(CatalogError::NegativeCost { index: i });
        }
        if !cards[i].is_well_formed() {
            return Err(CatalogError::TotalsOutOfRange { index: i });
        }
        i += 1;
    }
    Ok(())
}

/// How many effects of `kind` are aimed at the side `is_user`.
pub open spec fn count(effects: Seq<CardEffect>, kind: EffectKind, is_user: bool) -> nat
    decreases effects.len(),
{
    if effects.len() == 0 {
        0
    } else {
        count(effects.drop_last(), kind, is_user) + if effects.last().counts(kind, is_user) {
            1nat
        } else {
            0nat
        }
    }
}

/// Whether a side of the card is given more than one change of production.
/// Such changes are summed, but only the supply named last is changed.
pub open spec fn repeats_production_change(card: CardModel) -> bool {
    count(card.effects, EffectKind::ProductionChange, true) > 1 || count(
        card.effects,
        EffectKind::ProductionChange,
        false,
    ) > 1
}

impl Card {
    /// Counts the effects of `kind` aimed at the side `is_user`.
    pub fn count(&self, kind: EffectKind, is_user: bool) -> (n: usize)
        ensures
            n == count(self.effects@, kind, is_user),
    {
        let mut n: usize = 0;
        let mut i: usize = 0;
        while i < self.effects.len()
            invariant
                i <= self.effects.len(),
                n == count(self.effects@.take(i as int), kind, is_user),
                n <= i,
            decreases self.effects.len() - i,
        {
            proof {
                assert(self.effects@.take(i + 1).drop_last() =~= self.effects@.take(i as int));
            }
            if self.effects[i].counted(kind, is_user).is_some() {
                n += 1;
            }
            i += 1;
        }
        proof {
            assert(self.effects@.take(i as int) =~= self.effects@);
        }
        n
    }

    /// Whether a side of the card is given more than one change of production.
    pub fn repeats_production_change(&self) -> (repeats: bool)
        ensures
            repeats == repeats_production_change(self@),
    {
        self.count(EffectKind::ProductionChange, true) > 1 || self.count(
            EffectKind::ProductionChange,
            false,
        ) > 1
    }
}

/// The places of the cards that give a side more than one change of
/// production, in rising order.
pub fn repeated_production_changes(cards: &[Card]) -> (flagged: Vec<usize>)
    ensures
        forall|k: int| 0 <= k < flagged@.len() ==> (#[trigger] flagged@[k]) < cards@.len(),
        forall|k: int, l: int| 0 <= k < l < flagged@.len() ==> flagged@[k] < flagged@[l],
        forall|i: int|
            0 <= i < cards@.len() ==> (repeats_production_change(#[trigger] cards@[i]@)
                <==> flagged@.contains(i as usize)),
{
    let mut flagged: Vec<usize> = Vec::new();
    let mut i: usize = 0;
    while i < cards.len()
        invariant
            i <= cards@.len(),
            forall|k: int| 0 <= k < flagged@.len() ==> (#[trigger] flagged@[k]) < i,
            forall|k: int, l: int| 0 <= k < l < flagged@.len() ==> flagged@[k] < flagged@[l],
            forall|j: int|
                0 <= j < i ==> (repeats_production_change(#[trigger] cards@[j]@)
                    <==> flagged@.contains(j as usize)),
        decreases cards@.len() - i,
    {
        let ghost before = flagged@;
        if cards[i].repeats_production_change() {
            flagged.push(i);
            proof {
                assert(flagged@[before.len() as int] == i);
                assert forall|j: int| 0 <= j < i + 1 implies (repeats_production_change(
                    #[trigger] cards@[j]@,
                ) <==> flagged@.contains(j as usize)) by {
                    if j < i {
                        if before.contains(j as usize) {
                            let k = choose|k: int| 0 <= k < before.len() && before[k] == j as usize;
                            assert(flagged@[k] == j as usize);
                        }
                        if flagged@.contains(j as usize) {
                            let k = choose|k: int|
                                0 <= k < flagged@.len() && flagged@[k] == j as usize;
                            assert(k < before.len());
                            assert(before[k] == j as usize);
                        }
                    }
                }
            }
        } else {
            proof {
                if flagged@.contains(i) {
                    let k = choose|k: int| 0 <= k < flagged@.len() && flagged@[k] == i;
                    assert(flagged@[k] < i);
                }
            }
        }
        i += 1;
    }
    flagged
}

/// Where at most one effect of a kind is aimed at a side, summing changes
/// nothing: the total is the amount of that one effect, or zero where there
/// is none.
pub proof fn lemma_single_effect(effects: Seq<CardEffect>, kind: EffectKind, is_user: bool)
    requires
        count(effects, kind, is_user) <= 1,
    ensures
        total(effects, kind, is_user) == match last_counted(effects, kind, is_user) {
            Some(effect) => effect.effect_type.amount(),
            None => 0,
        },
        count(effects, kind, is_user) == 0 <==> last_counted(effects, kind, is_user).is_none(),
    decreases effects.len(),
{
    if effects.len() > 0 {
        let rest = effects.drop_last();
        lemma_single_effect(rest, kind, is_user);
        lemma_last_counted(rest, kind, is_user);
        if effects.last().counts(kind, is_user) {
            assert(count(rest, kind, is_user) == 0);
            crate::card::lemma_nothing_counts(rest, kind, is_user);
        }
    }
}

} // verus!
