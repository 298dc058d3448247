//! The cards a player holds, and how they are drawn from the deck.

use crate::card::{Card, CardModel};
use crate::consts::{BASE_RESOURCE_AMOUNT, CARDS_IN_DECK};
use crate::player_resources::{PlayerResources, SupplyModel};
use crate::rng::{random_in_range, random_usize};
use vstd::prelude::*;

verus! {

/// How often a card is drawn at most before the last one drawn is taken.
pub const DRAWS: usize = 9;

/// Among the draws, those from this one on are never accepted.
pub const PICKY_DRAWS: usize = 6;

/// The dearest card that is accepted into a first hand: a fifth more than
/// the starting stock, rounded down.
pub const OPENING_COST_LIMIT: i32 = 3;

/// `OPENING_COST_LIMIT` is a fifth more than the starting stock, rounded down.
pub proof fn lemma_opening_cost_limit()
    ensures
        OPENING_COST_LIMIT == BASE_RESOURCE_AMOUNT * 120 / 100,
{
}

/// How dear a drawn card may be to be accepted.
#[derive(Copy, Clone, Debug)]
pub enum CostLimit {
    /// For a first hand: no dearer than `OPENING_COST_LIMIT`.
    Opening,
    /// For a replacement: no dearer than the player's stock of the supply
    /// that the card costs, and two more.
    Stock(PlayerResources),
}

/// How dear a drawn card may be, as plain values.
pub enum CostLimitModel {
    Opening,
    Stock(SupplyModel),
}

impl View for CostLimit {
    type V = CostLimitModel;

    open spec fn view(&self) -> CostLimitModel {
        match self {
            CostLimit::Opening => CostLimitModel::Opening,
            CostLimit::Stock(resources) => CostLimitModel::Stock(resources@),
        }
    }
}

impl CostLimitModel {
    /// Whether the card is cheap enough.
    pub open spec fn allows(self, card: CardModel) -> bool {
        match self {
            CostLimitModel::Opening => card.cost_amount <= OPENING_COST_LIMIT,
            CostLimitModel::Stock(resources) => card.cost_amount <= resources.get(
                card.cost_resource,
            ).amount + 2,
        }
    }
}

impl CostLimit {
    /// Whether the card is cheap enough.
    pub fn allows(&self, card: &Card) -> (allowed: bool)
        ensures
            allowed == self@.allows(card@),
    {
        match self {
            CostLimit::Opening => card.cost_amount <= OPENING_COST_LIMIT,
            CostLimit::Stock(resources) => {
                let max_cost_amount: i64 = resources.get(card.cost_resource).amount as i64 + 2;
                card.cost_amount as i64 <= max_cost_amount
            },
        }
    }
}

/// The views of the cards of a deck.
pub open spec fn deck_view(deck: Seq<Card>) -> Seq<CardModel> {
    deck.map_values(|card: Card| card@)
}

/// Whether one of the cards has the given number.
pub open spec fn holds(cards: Seq<CardModel>, id: int) -> bool {
    exists|i: int| 0 <= i < cards.len() && (#[trigger] cards[i]).id == id
}

/// The place among the cards that a drawn number stands for: its remainder
/// by the number of cards.
pub open spec fn place(deck: Seq<CardModel>, draw: usize) -> int {
    draw as int % deck.len() as int
}

/// Whether the card drawn at the given attempt is taken: it is one of the
/// picky draws, it is cheap enough, and the hand holds no card of its number.
pub open spec fn accepted(
    hand: Seq<CardModel>,
    limit: CostLimitModel,
    card: CardModel,
    attempt: int,
) -> bool {
    attempt < PICKY_DRAWS && limit.allows(card) && !holds(hand, card.id)
}

/// The place in the deck of the card that is taken after the given draws,
/// looking at the draws from `attempt` on: that of the first draw that is
/// accepted, or else that of the last draw.
pub open spec fn picked_from(
    hand: Seq<CardModel>,
    deck: Seq<CardModel>,
    limit: CostLimitModel,
    draws: Seq<usize>,
    attempt: int,
) -> int
    decreases draws.len() - attempt,
{
    if attempt < 0 || attempt >= draws.len() - 1 {
        place(deck, draws.last())
    } else if accepted(hand, limit, deck[place(deck, draws[attempt])], attempt) {
        place(deck, draws[attempt])
    } else {
        picked_from(hand, deck, limit, draws, attempt + 1)
    }
}

/// The place in the deck of the card that is taken after the given draws.
pub open spec fn picked(
    hand: Seq<CardModel>,
    deck: Seq<CardModel>,
    limit: CostLimitModel,
    draws: Seq<usize>,
) -> int {
    picked_from(hand, deck, limit, draws, 0)
}

/// The card that is taken is one of the deck: the one that one of the draws
/// stands for.
pub proof fn lemma_picked(
    hand: Seq<CardModel>,
    deck: Seq<CardModel>,
    limit: CostLimitModel,
    draws: Seq<usize>,
)
    requires
        deck.len() > 0,
        draws.len() > 0,
    ensures
        0 <= picked(hand, deck, limit, draws) < deck.len(),
        exists|attempt: int|
            0 <= attempt < draws.len() && picked(hand, deck, limit, draws) == place(
                deck,
                #[trigger] draws[attempt],
            ),
{
    lemma_picked_from(hand, deck, limit, draws, 0);
}

/// As `lemma_picked`, looking at the draws from `attempt` on.
pub proof fn lemma_picked_from(
    hand: Seq<CardModel>,
    deck: Seq<CardModel>,
    limit: CostLimitModel,
    draws: Seq<usize>,
    attempt: int,
)
    requires
        deck.len() > 0,
        draws.len() > 0,
        0 <= attempt,
    ensures
        0 <= picked_from(hand, deck, limit, draws, attempt) < deck.len(),
        exists|a: int|
            0 <= a < draws.len() && picked_from(hand, deck, limit, draws, attempt) == place(
                deck,
                #[trigger] draws[a],
            ),
    decreases draws.len() - attempt,
{
    if attempt >= draws.len() - 1 {
        assert(draws.last() == draws[draws.len() - 1]);
    } else if accepted(hand, limit, deck[place(deck, draws[attempt])], attempt) {
        assert(picked_from(hand, deck, limit, draws, attempt) == place(deck, draws[attempt]));
    } else {
        lemma_picked_from(hand, deck, limit, draws, attempt + 1);
    }
}

/// Whether `card` is the card of the deck that is taken after some `DRAWS`
/// draws of numbers.
pub open spec fn drawn(
    hand: Seq<CardModel>,
    deck: Seq<Card>,
    limit: CostLimitModel,
    card: CardModel,
) -> bool {
    exists|draws: Seq<usize>|
        draws.len() == DRAWS && 0 <= #[trigger] picked(hand, deck_view(deck), limit, draws)
            < deck.len() && card == deck[picked(hand, deck_view(deck), limit, draws)]@
}

/// Whether `after` is `before` with the card at `card_nr` replaced by one
/// drawn from the deck, no dearer than the stock of `resources` allows.
pub open spec fn replaced(
    before: Seq<CardModel>,
    after: Seq<CardModel>,
    card_nr: int,
    deck: Seq<Card>,
    resources: SupplyModel,
) -> bool {
    &&& 0 <= card_nr < before.len()
    &&& after.len() == before.len()
    &&& forall|k: int| 0 <= k < before.len() && k != card_nr ==> after[k] == before[k]
    &&& drawn(before, deck, CostLimitModel::Stock(resources), after[card_nr])
}

/// Every card is well formed.
pub open spec fn all_wf(cards: Seq<CardModel>) -> bool {
    forall|i: int| 0 <= i < cards.len() ==> (#[trigger] cards[i]).wf()
}

/// A card drawn from a deck of well-formed cards is well formed.
pub proof fn lemma_drawn_is_wf(hand: Seq<CardModel>, deck: Seq<Card>, limit: CostLimitModel, card: CardModel)
    requires
        all_wf(deck_view(deck)),
        drawn(hand, deck, limit, card),
    ensures
        card.wf(),
{
    let draws = choose|draws: Seq<usize>|
        draws.len() == DRAWS && 0 <= #[trigger] picked(hand, deck_view(deck), limit, draws)
            < deck.len() && card == deck[picked(hand, deck_view(deck), limit, draws)]@;
    let i = picked(hand, deck_view(deck), limit, draws);
    assert(deck_view(deck)[i] == deck[i]@);
}

/// A hand of well-formed cards stays one when a card is replaced from a
/// deck of well-formed cards.
pub proof fn lemma_replaced_keeps_wf(
    before: Seq<CardModel>,
    after: Seq<CardModel>,
    card_nr: int,
    deck: Seq<Card>,
    resources: SupplyModel,
)
    requires
        all_wf(before),
        all_wf(deck_view(deck)),
        replaced(before, after, card_nr, deck, resources),
    ensures
        all_wf(after),
{
    lemma_drawn_is_wf(before, deck, CostLimitModel::Stock(resources), after[card_nr]);
    assert forall|i: int| 0 <= i < after.len() implies (#[trigger] after[i]).wf() by {
        if i != card_nr {
            assert(after[i] == before[i]);
        }
    }
}

/// The first place from `from` on at which the hand holds the card.
pub open spec fn position_from(hand: Seq<CardModel>, card: CardModel, from: int) -> Option<int>
    decreases hand.len() - from,
{
    if from < 0 || from >= hand.len() {
        None
    } else if hand[from] == card {
        Some(from)
    } else {
        position_from(hand, card, from + 1)
    }
}

/// The first place at which the hand holds the card.
pub open spec fn position(hand: Seq<CardModel>, card: CardModel) -> Option<int> {
    position_from(hand, card, 0)
}

/// The first place from `from` on whose card the supplies cover.
pub open spec fn first_affordable_from(hand: Seq<CardModel>, resources: SupplyModel, from: int) -> Option<
    int,
>
    decreases hand.len() - from,
{
    if from < 0 || from >= hand.len() {
        None
    } else if resources.can_afford(hand[from].cost_resource, hand[from].cost_amount) {
        Some(from)
    } else {
        first_affordable_from(hand, resources, from + 1)
    }
}

/// The first place whose card the supplies cover.
pub open spec fn first_affordable(hand: Seq<CardModel>, resources: SupplyModel) -> Option<int> {
    first_affordable_from(hand, resources, 0)
}

/// The first place whose card the supplies cover is a place in the hand,
/// its card is covered, and no card before it is; where there is no such
/// place, no card is covered.
pub proof fn lemma_first_affordable(hand: Seq<CardModel>, resources: SupplyModel)
    ensures
        match first_affordable(hand, resources) {
            Some(i) => {
                &&& 0 <= i < hand.len()
                &&& resources.can_afford(hand[i].cost_resource, hand[i].cost_amount)
                &&& forall|j: int|
                    0 <= j < i ==> !resources.can_afford(
                        (#[trigger] hand[j]).cost_resource,
                        hand[j].cost_amount,
                    )
            },
            None => forall|j: int|
                0 <= j < hand.len() ==> !resources.can_afford(
                    (#[trigger] hand[j]).cost_resource,
                    hand[j].cost_amount,
                ),
        },
{
    lemma_first_affordable_from(hand, resources, 0);
}

/// As `lemma_first_affordable`, for the places from `from` on.
pub proof fn lemma_first_affordable_from(hand: Seq<CardModel>, resources: SupplyModel, from: int)
    requires
        0 <= from,
    ensures
        match first_affordable_from(hand, resources, from) {
            Some(i) => {
                &&& from <= i < hand.len()
                &&& resources.can_afford(hand[i].cost_resource, hand[i].cost_amount)
                &&& forall|j: int|
                    from <= j < i ==> !resources.can_afford(
                        (#[trigger] hand[j]).cost_resource,
                        hand[j].cost_amount,
                    )
            },
            None => forall|j: int|
                from <= j < hand.len() ==> !resources.can_afford(
                    (#[trigger] hand[j]).cost_resource,
                    hand[j].cost_amount,
                ),
        },
    decreases hand.len() - from,
{
    if from < hand.len() && !resources.can_afford(hand[from].cost_resource, hand[from].cost_amount) {
        lemma_first_affordable_from(hand, resources, from + 1);
    }
}

/// What is shown of a card in hand: its place, and whether the player can
/// afford it.
#[derive(Debug)]
pub struct CardInfo<'a> {
    pub card: &'a Card,
    pub index: usize,
    pub can_afford: bool,
}

/// Whether the hand is a full hand dealt from the given cards: each of its
/// cards is one drawn from them, no dearer than a first hand allows, given
/// the cards dealt before it.
pub open spec fn dealt(hand: Seq<CardModel>, cards: Seq<Card>) -> bool {
    &&& hand.len() == CARDS_IN_DECK
    &&& forall|k: int|
        0 <= k < hand.len() ==> drawn(hand.take(k), cards, CostLimitModel::Opening, #[trigger] hand[k])
}

/// A hand dealt from well-formed cards holds well-formed cards only.
pub proof fn lemma_dealt_is_wf(hand: Seq<CardModel>, cards: Seq<Card>)
    requires
        all_wf(deck_view(cards)),
        dealt(hand, cards),
    ensures
        all_wf(hand),
{
    assert forall|k: int| 0 <= k < hand.len() implies (#[trigger] hand[k]).wf() by {
        lemma_drawn_is_wf(hand.take(k), cards, CostLimitModel::Opening, hand[k]);
    }
}

/// The cards a player holds.
#[derive(Debug, Clone, PartialEq)]
pub struct HandCards(pub Vec<Card>);

impl View for HandCards {
    type V = Seq<CardModel>;

    open spec fn view(&self) -> Seq<CardModel> {
        deck_view(self.0@)
    }
}

impl Default for HandCards {
    fn default() -> (hand: HandCards)
        ensures
            hand@ == Seq::<CardModel>::empty(),
    {
        let hand = HandCards(Vec::new());
        assert(hand@ =~= Seq::<CardModel>::empty());
        hand
    }
}

impl HandCards {
    /// Whether the hand holds a card of the given number.
    pub fn holds_id(&self, id: i32) -> (found: bool)
        ensures
            found == holds(self@, id as int),
    {
        let mut i: usize = 0;
        while i < self.0.len()
            invariant
                i <= self.0.len(),
                forall|j: int| 0 <= j < i ==> (#[trigger] self@[j]).id != id,
            decreases self.0.len() - i,
        {
            if self.0[i].id == id {
                assert(self@[i as int].id == id);
                return true;
            }
            i += 1;
        }
        false
    }

    /// The first place at which the hand holds a card equal to `card`.
    pub fn position(&self, card: &Card) -> (place: Option<usize>)
        ensures
            match place {
                Some(i) => i < self@.len() && position(self@, card@) == Some(i as int),
                None => position(self@, card@).is_none(),
            },
    {
        let mut i: usize = 0;
        while i < self.0.len()
            invariant
                i <= self.0.len(),
                position(self@, card@) == position_from(self@, card@, i as int),
            decreases self.0.len() - i,
        {
            if self.0[i].same_as(card) {
                return Some(i);
            }
            i += 1;
        }
        None
    }

    /// The first place whose card the supplies cover.
    pub fn first_affordable(&self, resources: &PlayerResources) -> (place: Option<usize>)
        ensures
            match place {
                Some(i) => i < self@.len() && first_affordable(self@, resources@) == Some(i as int),
                None => first_affordable(self@, resources@).is_none(),
            },
    {
        let mut i: usize = 0;
        while i < self.0.len()
            invariant
                i <= self.0.len(),
                first_affordable(self@, resources@) == first_affordable_from(
                    self@,
                    resources@,
                    i as int,
                ),
            decreases self.0.len() - i,
        {
            if resources.can_afford_card(&self.0[i]) {
                return Some(i);
            }
            i += 1;
        }
        None
    }

    /// The move of a player who does not think: the first card that the
    /// supplies cover is played; where they cover none, a card chosen at
    /// random is discarded. Gives the place of the card and whether it is
    /// discarded.
    pub fn get_possible_move(&self, resources: &PlayerResources) -> (choice: (i32, bool))
        requires
            self@.len() == CARDS_IN_DECK,
        ensures
            0 <= choice.0 < self@.len(),
            match first_affordable(self@, resources@) {
                Some(i) => choice.0 == i && !choice.1,
                None => choice.1,
            },
    {
        match self.first_affordable(resources) {
            Some(i) => (i as i32, false),
            None => (random_in_range(0, CARDS_IN_DECK), true),
        }
    }

    /// What is shown of each card in hand, in order.
    pub fn card_info_array<'a>(&'a self, supply: &PlayerResources) -> (infos: Vec<CardInfo<'a>>)
        ensures
            infos@.len() == self@.len(),
            forall|i: int|
                0 <= i < infos@.len() ==> (#[trigger] infos@[i]).index == i && infos@[i].card@
                    == self@[i] && infos@[i].can_afford == supply@.can_afford(
                    self@[i].cost_resource,
                    self@[i].cost_amount,
                ),
    {
        let mut infos: Vec<CardInfo<'a>> = Vec::new();
        let mut i: usize = 0;
        while i < self.0.len()
            invariant
                i <= self.0.len(),
                infos@.len() == i,
                forall|j: int|
                    0 <= j < infos@.len() ==> (#[trigger] infos@[j]).index == j && infos@[j].card@
                        == self@[j] && infos@[j].can_afford == supply@.can_afford(
                        self@[j].cost_resource,
                        self@[j].cost_amount,
                    ),
            decreases self.0.len() - i,
        {
            let card = &self.0[i];
            let can_afford = supply.can_afford_card(card);
            infos.push(CardInfo { card, index: i, can_afford });
            i += 1;
        }
        infos
    }

    /// The place in the deck of the card to take after the given draws: that
    /// of the first draw among the picky ones whose card is cheap enough and
    /// has a number that the hand does not hold, or else that of the last draw.
    pub fn pick(&self, deck: &[Card], limit: &CostLimit, draws: &[usize]) -> (index: usize)
        requires
            deck@.len() > 0,
            draws@.len() > 0,
        ensures
            index < deck@.len(),
            index == picked(self@, deck_view(deck@), limit@, draws@),
    {
        let mut attempt: usize = 0;
        while attempt < draws.len() - 1
            invariant
                deck@.len() > 0,
                draws@.len() > 0,
                attempt <= draws@.len() - 1,
                picked(self@, deck_view(deck@), limit@, draws@) == picked_from(
                    self@,
                    deck_view(deck@),
                    limit@,
                    draws@,
                    attempt as int,
                ),
            decreases draws@.len() - attempt,
        {
            let i: usize = draws[attempt] % deck.len();
            let card = &deck[i];
            if attempt < PICKY_DRAWS && limit.allows(card) && !self.holds_id(card.id) {
                return i;
            }
            attempt += 1;
        }
        draws[draws.len() - 1] % deck.len()
    }

    /// Draws `DRAWS` random numbers.
    fn draw_numbers() -> (draws: Vec<usize>)
        ensures
            draws@.len() == DRAWS,
    {
        let mut draws: Vec<usize> = Vec::new();
        while draws.len() < DRAWS
            invariant
                draws@.len() <= DRAWS,
            decreases DRAWS - draws@.len(),
        {
            draws.push(random_usize());
        }
        draws
    }

    /// Replaces the card at `card_nr` by one drawn at random from the deck:
    /// by the card that `pick` takes for some `DRAWS` draws. The other cards
    /// stay.
    pub fn replace_card(&mut self, card_nr: usize, resources: &PlayerResources, deck: &[Card])
        requires
            card_nr < old(self)@.len(),
            deck@.len() > 0,
        ensures
            replaced(old(self)@, final(self)@, card_nr as int, deck@, resources@),
    {
        let draws = HandCards::draw_numbers();
        let limit = CostLimit::Stock(*resources);
        let i: usize = self.pick(deck, &limit, draws.as_slice());
        let ghost before = self@;
        self.0.set(card_nr, deck[i].clone());
        assert(self@ =~= before.update(card_nr as int, deck@[i as int]@));
        assert(picked(before, deck_view(deck@), limit@, draws@) == i);
    }

    /// A random place in the hand: the place that a number drawn at random
    /// stands for, as `place_of` gives it.
    pub fn rnd(&self) -> (i: usize)
        requires
            self@.len() > 0,
        ensures
            i < self@.len(),
            exists|draw: usize| i == #[trigger] place(self@, draw),
    {
        let draw: usize = random_usize();
        let i: usize = self.place_of(draw);
        assert(i == place(self@, draw));
        i
    }

    /// The place in the hand that a drawn number stands for: its remainder
    /// by the number of cards in hand.
    pub fn place_of(&self, draw: usize) -> (i: usize)
        requires
            self@.len() > 0,
        ensures
            i == place(self@, draw),
            i < self@.len(),
    {
        draw % self.0.len()
    }

    /// Deals a hand of `CARDS_IN_DECK` cards drawn at random from the given
    /// cards: each is the card that `pick` takes, for some `DRAWS` draws,
    /// given the cards dealt before it.
    pub fn generate_random(cards: &[Card]) -> (hand: HandCards)
        requires
            cards@.len() > 0,
        ensures
            dealt(hand@, cards@),
    {
        let mut hand = HandCards(Vec::new());
        let limit = CostLimit::Opening;
        let mut dealt: i32 = 0;
        while dealt < CARDS_IN_DECK
            invariant
                cards@.len() > 0,
                0 <= dealt <= CARDS_IN_DECK,
                hand@.len() == dealt,
                limit@ == CostLimitModel::Opening,
                forall|k: int|
                    0 <= k < hand@.len() ==> drawn(
                        hand@.take(k),
                        cards@,
                        CostLimitModel::Opening,
                        #[trigger] hand@[k],
                    ),
            decreases CARDS_IN_DECK - dealt,
        {
            let draws = HandCards::draw_numbers();
            let i: usize = hand.pick(cards, &limit, draws.as_slice());
            let ghost before = hand@;
            hand.0.push(cards[i].clone());
            dealt += 1;
            proof {
                assert(hand@ =~= before.push(cards@[i as int]@));
                assert(hand@.take(before.len() as int) =~= before);
                assert(picked(before, deck_view(cards@), limit@, draws@) == i);
                assert forall|k: int| 0 <= k < hand@.len() implies drawn(
                    hand@.take(k),
                    cards@,
                    CostLimitModel::Opening,
                    #[trigger] hand@[k],
                ) by {
                    if k < before.len() {
                        assert(hand@.take(k) =~= before.take(k));
                        assert(hand@[k] == before[k]);
                    }
                }
            }
        }
        hand
    }
}

} // verus!
