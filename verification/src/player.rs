//! One player's state, and what playing a card does to it.

use crate::card::{
    aimed_at, last_ignores_shield, last_resource, lemma_side_filtering, total, Card, CardEffect,
    CardModel, EffectKind,
};
use crate::consts::{BASE_TOWER_HP, BASE_WALLS_HP, MAX_PRODUCTION, MAX_TOWER_HP, MAX_WALLS_HP};
use crate::player_resources::{PlayerResources, SupplyModel};
use crate::resource::{clamp, fits_i32, floor_at_zero, ResourceType};
use vstd::prelude::*;

verus! {

/// One player's state, as unbounded integers.
pub struct PlayerModel {
    pub tower: int,
    pub walls: int,
    pub resources: SupplyModel,
}

impl PlayerModel {
    /// Tower and walls lie between zero and their maxima, and the supplies
    /// are well formed.
    pub open spec fn wf(self) -> bool {
        &&& 0 <= self.tower <= MAX_TOWER_HP
        &&& 0 <= self.walls <= MAX_WALLS_HP
        &&& self.resources.wf()
    }

    /// Every number can be held in an `i32`.
    pub open spec fn representable(self) -> bool {
        &&& fits_i32(self.tower)
        &&& fits_i32(self.walls)
        &&& self.resources.representable()
    }

    /// The state a match starts with.
    pub open spec fn base() -> PlayerModel {
        PlayerModel {
            tower: BASE_TOWER_HP as int,
            walls: BASE_WALLS_HP as int,
            resources: SupplyModel::base(),
        }
    }

    /// The tower still stands.
    pub open spec fn is_alive(self) -> bool {
        self.tower > 0
    }

    /// The tower has fallen: the player has lost.
    pub open spec fn is_defeated(self) -> bool {
        self.tower <= 0
    }

    /// The tower has reached its greatest height: the player has won.
    pub open spec fn has_max_possible_tower(self) -> bool {
        self.tower >= MAX_TOWER_HP
    }

    /// The tower raised by `amount`, kept within `0..=MAX_TOWER_HP`.
    pub open spec fn make_tower_higher(self, amount: int) -> PlayerModel {
        PlayerModel { tower: clamp(self.tower + amount, 0, MAX_TOWER_HP as int), ..self }
    }

    /// The walls raised by `amount`, kept within `0..=MAX_WALLS_HP`.
    pub open spec fn make_walls_higher(self, amount: int) -> PlayerModel {
        PlayerModel { walls: clamp(self.walls + amount, 0, MAX_WALLS_HP as int), ..self }
    }

    /// Damage taken. Damage that ignores the walls falls on the tower alone.
    /// Other damage falls on the walls first; what they cannot take falls on
    /// the tower. Neither sinks below zero.
    pub open spec fn give_damage(self, amount: int, ignore_wall: bool) -> PlayerModel {
        if ignore_wall {
            PlayerModel {
                tower: floor_at_zero(self.tower - amount),
                walls: floor_at_zero(self.walls),
                ..self
            }
        } else if self.walls < amount {
            PlayerModel { tower: floor_at_zero(self.tower - (amount - self.walls)), walls: 0, ..self }
        } else {
            PlayerModel {
                tower: floor_at_zero(self.tower),
                walls: floor_at_zero(self.walls - amount),
                ..self
            }
        }
    }

    /// The stock of one supply moved by `amount`.
    pub open spec fn change_resource_amount(self, res_type: ResourceType, amount: int) -> PlayerModel {
        PlayerModel { resources: self.resources.change_amount(res_type, amount), ..self }
    }

    /// The production of one supply moved by `amount`.
    pub open spec fn change_resource_production(self, res_type: ResourceType, amount: int) -> PlayerModel {
        PlayerModel { resources: self.resources.change_production(res_type, amount), ..self }
    }

    /// One turn's production added to every stock.
    pub open spec fn start_new_turn(self) -> PlayerModel {
        PlayerModel { resources: self.resources.update(), ..self }
    }

    /// Whether the stock covers the cost of the card.
    pub open spec fn can_afford(self, card: CardModel) -> bool {
        self.resources.can_afford(card.cost_resource, card.cost_amount)
    }

    /// The cost of the card taken from the stock.
    pub open spec fn pay_cost(self, card: CardModel) -> PlayerModel {
        self.change_resource_amount(card.cost_resource, -card.cost_amount)
    }

    /// What the effects aimed at the side `is_user` do to this state, in
    /// this order: stock, production, tower growth, walls growth, damage.
    pub open spec fn apply_effects(self, effects: Seq<CardEffect>, is_user: bool) -> PlayerModel {
        self.change_resource_amount(
            last_resource(effects, EffectKind::ResourceChange, is_user),
            total(effects, EffectKind::ResourceChange, is_user),
        ).change_resource_production(
            last_resource(effects, EffectKind::ProductionChange, is_user),
            total(effects, EffectKind::ProductionChange, is_user),
        ).make_tower_higher(total(effects, EffectKind::TowerGrowth, is_user)).make_walls_higher(
            total(effects, EffectKind::WallsGrowth, is_user),
        ).give_damage(total(effects, EffectKind::Damage, is_user), last_ignores_shield(effects, is_user))
    }

    /// What a played card does to this state: the player who plays it pays
    /// its cost first; then its effects on this side apply.
    pub open spec fn card_used(self, card: CardModel, is_user: bool) -> PlayerModel {
        if is_user {
            self.pay_cost(card).apply_effects(card.effects, is_user)
        } else {
            self.apply_effects(card.effects, is_user)
        }
    }
}

/// One player's state: tower, walls and supplies.
#[derive(PartialEq, Eq, Copy, Debug, Clone, Structural)]
pub struct Player {
    pub tower_hp: i32,
    pub walls_hp: i32,
    pub resources: PlayerResources,
}

impl View for Player {
    type V = PlayerModel;

    open spec fn view(&self) -> PlayerModel {
        PlayerModel {
            tower: self.tower_hp as int,
            walls: self.walls_hp as int,
            resources: self.resources@,
        }
    }
}

impl Default for Player {
    fn default() -> (player: Player)
        ensures
            player@ == PlayerModel::base(),
    {
        Player::new()
    }
}

impl Player {
    /// A player at the start of a match.
    pub fn new() -> (player: Player)
        ensures
            player@ == PlayerModel::base(),
            player@.wf(),
    {
        Player {
            tower_hp: BASE_TOWER_HP,
            walls_hp: BASE_WALLS_HP,
            resources: PlayerResources::default(),
        }
    }

    /// Puts the player back to the start of a match.
    pub fn reset(&mut self)
        ensures
            final(self)@ == PlayerModel::base(),
    {
        self.resources.magic.reset();
        self.resources.tools.reset();
        self.resources.soldiers.reset();
        self.tower_hp = BASE_TOWER_HP;
        self.walls_hp = BASE_WALLS_HP;
    }

    /// Whether the state is well formed.
    pub fn is_well_formed(&self) -> (ok: bool)
        ensures
            ok == self@.wf(),
    {
        0 <= self.tower_hp && self.tower_hp <= MAX_TOWER_HP && 0 <= self.walls_hp && self.walls_hp
            <= MAX_WALLS_HP && self.resources.is_well_formed()
    }

    /// Whether the tower still stands.
    pub fn is_alive(&self) -> (alive: bool)
        ensures
            alive == self@.is_alive(),
            alive == !self@.is_defeated(),
    {
        self.tower_hp > 0
    }

    /// Whether the tower has reached its greatest height.
    pub fn has_max_possible_tower(&self) -> (won: bool)
        ensures
            won == self@.has_max_possible_tower(),
    {
        self.tower_hp >= MAX_TOWER_HP
    }

    /// Raises the tower by `amount`; it stays within `0..=MAX_TOWER_HP`.
    pub fn make_tower_higher(&mut self, amount: i32)
        ensures
            final(self)@ == old(self)@.make_tower_higher(amount as int),
    {
        let sum: i64 = self.tower_hp as i64 + amount as i64;
        if sum < 0 {
            self.tower_hp = 0;
        } else if sum > MAX_TOWER_HP as i64 {
            self.tower_hp = MAX_TOWER_HP;
        } else {
            self.tower_hp = sum as i32;
        }
    }

    /// Raises the walls by `amount`; they stay within `0..=MAX_WALLS_HP`.
    pub fn make_walls_higher(&mut self, amount: i32)
        ensures
            final(self)@ == old(self)@.make_walls_higher(amount as int),
    {
        let sum: i64 = self.walls_hp as i64 + amount as i64;
        if sum < 0 {
            self.walls_hp = 0;
        } else if sum > MAX_WALLS_HP as i64 {
            self.walls_hp = MAX_WALLS_HP;
        } else {
            self.walls_hp = sum as i32;
        }
    }

    /// Whether `give_damage(amount, ignore_wall)` stays within what `i32`
    /// fields hold.
    pub fn can_give_damage(&self, amount: i32, ignore_wall: bool) -> (ok: bool)
        ensures
            ok == self@.give_damage(amount as int, ignore_wall).representable(),
    {
        let (tower, walls): (i64, i64) = self.damaged(amount, ignore_wall);
        tower <= i32::MAX as i64 && walls <= i32::MAX as i64
    }

    /// Tower and walls after the damage, in a type wide enough for any outcome.
    fn damaged(&self, amount: i32, ignore_wall: bool) -> (after: (i64, i64))
        ensures
            after.0 == self@.give_damage(amount as int, ignore_wall).tower,
            after.1 == self@.give_damage(amount as int, ignore_wall).walls,
    {
        let tower: i64 = self.tower_hp as i64;
        let walls: i64 = self.walls_hp as i64;
        let amount: i64 = amount as i64;
        let (tower, walls): (i64, i64) = if ignore_wall {
            (tower - amount, walls)
        } else if walls < amount {
            (tower - (amount - walls), 0)
        } else {
            (tower, walls - amount)
        };
        (if tower < 0 { 0 } else { tower }, if walls < 0 { 0 } else { walls })
    }

    /// Deals damage to the player. Damage that ignores the walls falls on
    /// the tower alone. Other damage falls on the walls first; what they
    /// cannot take falls on the tower. Neither sinks below zero.
    pub fn give_damage(&mut self, amount: i32, ignore_wall: bool)
        requires
            old(self)@.give_damage(amount as int, ignore_wall).representable(),
        ensures
            final(self)@ == old(self)@.give_damage(amount as int, ignore_wall),
    {
        let (tower, walls): (i64, i64) = self.damaged(amount, ignore_wall);
        self.tower_hp = tower as i32;
        self.walls_hp = walls as i32;
    }

    /// Moves the stock of one supply by `amount`, floored at zero.
    pub fn change_resource_amount(&mut self, res_type: ResourceType, amount: i32)
        requires
            old(self)@.change_resource_amount(res_type, amount as int).representable(),
        ensures
            final(self)@ == old(self)@.change_resource_amount(res_type, amount as int),
    {
        self.resources.change_resource_amount(res_type, amount);
    }

    /// Moves the production of one supply by `amount`, kept within its bounds.
    pub fn change_resource_production(&mut self, res_type: ResourceType, amount: i32)
        ensures
            final(self)@ == old(self)@.change_resource_production(res_type, amount as int),
    {
        self.resources.change_resource_production(res_type, amount);
    }

    /// Whether `start_new_turn()` stays within what `i32` fields hold.
    pub fn can_start_new_turn(&self) -> (ok: bool)
        ensures
            ok == self@.start_new_turn().representable(),
    {
        self.resources.can_update_resources()
    }

    /// Begins the player's turn: every supply produces.
    pub fn start_new_turn(&mut self)
        requires
            old(self)@.start_new_turn().representable(),
        ensures
            final(self)@ == old(self)@.start_new_turn(),
    {
        self.resources.update_resources();
    }

    /// Whether the stock covers the cost of the card.
    pub fn can_afford(&self, card: &Card) -> (affordable: bool)
        ensures
            affordable == self@.can_afford(card@),
            affordable == (self@.resources.get(card.cost_resource).amount >= card.cost_amount),
    {
        self.resources.can_afford_card(card)
    }

    /// Takes the cost of the card from the stock; a stock that does not
    /// cover it is emptied.
    pub fn pay_cost(&mut self, card: &Card)
        requires
            card.cost_amount >= 0,
        ensures
            final(self)@ == old(self)@.pay_cost(card@),
    {
        self.resources.change_resource_amount(card.cost_resource, -card.cost_amount);
    }

    /// Applies the effects that the card aims at the side `is_user`, in this
    /// order: stock, production, tower growth, walls growth, damage.
    pub fn apply_effects(&mut self, card: &Card, is_user: bool)
        requires
            card.wf(),
            old(self)@.apply_effects(card.effects@, is_user).representable(),
        ensures
            final(self)@ == old(self)@.apply_effects(card.effects@, is_user),
    {
        let res_change = card.resource_amount_change(is_user);
        self.resources.change_resource_amount(res_change.0, res_change.1);
        let prod = card.production_change(is_user);
        self.resources.change_resource_production(prod.0, prod.1);
        self.make_tower_higher(card.tower_growth(is_user));
        self.make_walls_higher(card.walls_growth(is_user));
        let damage = card.damage(is_user);
        self.give_damage(damage.0, damage.1);
    }

    /// What a played card does to this player: the player who plays it
    /// (`is_user`) pays its cost first; then its effects on this side apply.
    pub fn card_used(&mut self, card: &Card, is_user: bool)
        requires
            card.wf(),
            old(self)@.card_used(card@, is_user).representable(),
        ensures
            final(self)@ == old(self)@.card_used(card@, is_user),
    {
        if is_user {
            self.pay_cost(card);
        }
        self.apply_effects(card, is_user);
    }

    /// Whether `card_used(card, is_user)` can be called: the card is well
    /// formed and the outcome stays within what `i32` fields hold.
    pub fn can_use(&self, card: &Card, is_user: bool) -> (ok: bool)
        ensures
            ok == (card.wf() && self@.card_used(card@, is_user).representable()),
    {
        if !card.is_well_formed() {
            return false;
        }
        let mut after: Player = *self;
        if is_user {
            after.pay_cost(card);
        }
        let res_change = card.resource_amount_change(is_user);
        if !after.resources.can_change_resource_amount(res_change.0, res_change.1) {
            return false;
        }
        after.resources.change_resource_amount(res_change.0, res_change.1);
        let prod = card.production_change(is_user);
        after.resources.change_resource_production(prod.0, prod.1);
        after.make_tower_higher(card.tower_growth(is_user));
        after.make_walls_higher(card.walls_growth(is_user));
        let damage = card.damage(is_user);
        after.can_give_damage(damage.0, damage.1)
    }
}

/// Plays a card: if the player can afford it, the player pays its cost and
/// takes the effects aimed at the user, and the opponent takes the effects
/// aimed at the opponent. If the player cannot afford it, nothing changes.
pub fn play_card(card: &Card, user: &mut Player, opponent: &mut Player) -> (played: bool)
    requires
        card.wf(),
        old(user)@.can_afford(card@) ==> old(user)@.card_used(card@, true).representable() && old(opponent)@.card_used(card@, false).representable(),
    ensures
        played == old(user)@.can_afford(card@),
        played ==> final(user)@ == old(user)@.card_used(card@, true) && final(opponent)@ == old(opponent)@.card_used(card@, false),
        !played ==> *final(user) == *old(user) && *final(opponent) == *old(opponent),
{
    if !user.can_afford(card) {
        return false;
    }
    user.card_used(card, true);
    opponent.card_used(card, false);
    true
}

/// Whether a match is over: a tower has fallen or has reached its greatest height.
pub fn game_ended(first: &Player, second: &Player) -> (ended: bool)
    ensures
        ended == (first@.is_defeated() || first@.has_max_possible_tower() || second@.is_defeated()
            || second@.has_max_possible_tower()),
{
    !first.is_alive() || first.has_max_possible_tower() || !second.is_alive()
        || second.has_max_possible_tower()
}

/// Whether the tower of one of the players has fallen or has reached its
/// greatest height.
pub open spec fn any_ended(players: Seq<Player>) -> bool {
    exists|i: int|
        0 <= i < players.len() && ((#[trigger] players[i])@.is_defeated()
            || players[i]@.has_max_possible_tower())
}

/// Whether a match between any number of players is over: the tower of one
/// of them has fallen or has reached its greatest height. A match without
/// players is not over.
pub fn game_ended_condition(players: &[Player]) -> (ended: bool)
    ensures
        ended == any_ended(players@),
        ended == exists|i: int|
            0 <= i < players@.len() && ((#[trigger] players@[i])@.is_defeated()
                || players@[i]@.has_max_possible_tower()),
{
    let mut i: usize = 0;
    while i < players.len()
        invariant
            i <= players@.len(),
            forall|j: int|
                0 <= j < i ==> !((#[trigger] players@[j])@.is_defeated()
                    || players@[j]@.has_max_possible_tower()),
        decreases players@.len() - i,
    {
        if !players[i].is_alive() || players[i].has_max_possible_tower() {
            return true;
        }
        i += 1;
    }
    false
}

/// Two players are a list of two: the match between them is over exactly
/// when the match between the players of that list is. No player, no end.
pub proof fn lemma_game_ended_for_two(first: Player, second: Player)
    ensures
        any_ended(seq![first, second]) <==> (first@.is_defeated() || first@.has_max_possible_tower()
            || second@.is_defeated() || second@.has_max_possible_tower()),
        !any_ended(Seq::<Player>::empty()),
{
    let players = seq![first, second];
    assert(players[0] == first);
    assert(players[1] == second);
}

/// A well-formed state at the start of a match is neither lost nor won.
pub proof fn lemma_base_state()
    ensures
        PlayerModel::base().wf(),
        PlayerModel::base().is_alive(),
        !PlayerModel::base().has_max_possible_tower(),
{
}

/// In a well-formed state the player is defeated exactly when the tower is
/// at zero, has won exactly when it is at its greatest height, and never both.
pub proof fn lemma_win_and_loss(player: PlayerModel)
    requires
        player.wf(),
    ensures
        player.is_defeated() <==> player.tower == 0,
        player.is_defeated() <==> !player.is_alive(),
        player.has_max_possible_tower() <==> player.tower == MAX_TOWER_HP,
        !(player.is_defeated() && player.has_max_possible_tower()),
{
}

/// A stock never sinks below zero, production never leaves
/// `1..=MAX_PRODUCTION`, and tower and walls never leave their ranges,
/// whatever state they start from and whatever amount is asked for.
pub proof fn lemma_changes_are_clamped(player: PlayerModel, res_type: ResourceType, amount: int)
    ensures
        player.change_resource_amount(res_type, amount).resources.get(res_type).amount >= 0,
        1 <= player.change_resource_production(res_type, amount).resources.get(res_type).production
            <= MAX_PRODUCTION,
        0 <= player.make_tower_higher(amount).tower <= MAX_TOWER_HP,
        0 <= player.make_walls_higher(amount).walls <= MAX_WALLS_HP,
        forall|ignore_wall: bool| 0 <= (#[trigger] player.give_damage(amount, ignore_wall)).tower,
        forall|ignore_wall: bool| 0 <= (#[trigger] player.give_damage(amount, ignore_wall)).walls,
{
}

/// Each single change keeps a well-formed state well formed; damage does so
/// where its amount is not negative.
pub proof fn lemma_changes_keep_wf(player: PlayerModel, res_type: ResourceType, amount: int)
    requires
        player.wf(),
    ensures
        player.change_resource_amount(res_type, amount).wf(),
        player.change_resource_production(res_type, amount).wf(),
        player.make_tower_higher(amount).wf(),
        player.make_walls_higher(amount).wf(),
        player.start_new_turn().wf(),
        amount >= 0 ==> forall|ignore_wall: bool| (#[trigger] player.give_damage(amount, ignore_wall)).wf(),
{
}

/// Damage that does not ignore the walls and that the walls can take leaves
/// the tower as it is; damage that the walls cannot take empties them and
/// the rest falls on the tower; damage that ignores the walls leaves them as
/// they are.
pub proof fn lemma_damage_absorption(player: PlayerModel, amount: int)
    requires
        player.wf(),
        amount >= 0,
    ensures
        amount <= player.walls ==> player.give_damage(amount, false).walls == player.walls - amount
            && player.give_damage(amount, false).tower == player.tower,
        amount > player.walls ==> player.give_damage(amount, false).walls == 0
            && player.give_damage(amount, false).tower == floor_at_zero(
            player.tower - (amount - player.walls),
        ),
        player.give_damage(amount, true).walls == player.walls,
        player.give_damage(amount, true).tower == floor_at_zero(player.tower - amount),
        player.give_damage(amount, false).resources == player.resources,
        player.give_damage(amount, true).resources == player.resources,
{
}

/// Damage that does not ignore the walls takes from walls and tower
/// together exactly its amount, or all there is where it is more.
pub proof fn lemma_damage_is_taken_in_full(player: PlayerModel, amount: int)
    requires
        player.wf(),
        amount >= 0,
    ensures
        (player.tower + player.walls) - (player.give_damage(amount, false).tower
            + player.give_damage(amount, false).walls) == if amount <= player.tower + player.walls {
            amount
        } else {
            player.tower + player.walls
        },
{
}

/// Applying the effects of a card keeps a well-formed state well formed,
/// where the damage it adds up to is not negative.
pub proof fn lemma_apply_effects_keeps_wf(player: PlayerModel, effects: Seq<CardEffect>, is_user: bool)
    requires
        player.wf(),
        total(effects, EffectKind::Damage, is_user) >= 0,
    ensures
        player.apply_effects(effects, is_user).wf(),
{
}

/// A played card keeps the state of either side well formed, where the
/// damage it adds up to for that side is not negative.
pub proof fn lemma_card_used_keeps_wf(player: PlayerModel, card: CardModel, is_user: bool)
    requires
        player.wf(),
        total(card.effects, EffectKind::Damage, is_user) >= 0,
    ensures
        player.card_used(card, is_user).wf(),
{
    if is_user {
        lemma_apply_effects_keeps_wf(player.pay_cost(card), card.effects, is_user);
    } else {
        lemma_apply_effects_keeps_wf(player, card.effects, is_user);
    }
}

/// From a well-formed state, and with damage that is not negative, the
/// outcome of a played card can be held in `i32` fields exactly when the
/// stock that the card changes stays within an `i32`.
pub proof fn lemma_card_used_representable(player: PlayerModel, card: CardModel, is_user: bool)
    requires
        player.wf(),
        player.representable(),
        card.cost_amount >= 0,
        total(card.effects, EffectKind::Damage, is_user) >= 0,
    ensures
        player.card_used(card, is_user).representable() <==> fits_i32(
            player.card_used(card, is_user).resources.get(
                last_resource(card.effects, EffectKind::ResourceChange, is_user),
            ).amount,
        ),
{
}

/// A card that costs nothing the player lacks: paying leaves no stock
/// negative and takes exactly the cost where the player can afford it.
pub proof fn lemma_pay_cost(player: PlayerModel, card: CardModel)
    requires
        player.wf(),
        card.cost_amount >= 0,
    ensures
        player.pay_cost(card).wf(),
        player.can_afford(card) ==> player.pay_cost(card).resources.get(card.cost_resource).amount
            == player.resources.get(card.cost_resource).amount - card.cost_amount,
        !player.can_afford(card) ==> player.pay_cost(card).resources.get(card.cost_resource).amount
            == 0,
        player.pay_cost(card).tower == player.tower,
        player.pay_cost(card).walls == player.walls,
{
}

/// What a played card does to one side is decided by the effects aimed at
/// that side alone: the effects aimed at the other side do as much as no
/// effects at all, which leave a well-formed state as it is.
pub proof fn lemma_apply_effects_sees_one_side(player: PlayerModel, effects: Seq<CardEffect>, is_user: bool)
    ensures
        player.apply_effects(effects.filter(aimed_at(is_user)), is_user) == player.apply_effects(
            effects,
            is_user,
        ),
        player.apply_effects(effects.filter(aimed_at(!is_user)), is_user) == player.apply_effects(
            Seq::empty(),
            is_user,
        ),
        player.wf() ==> player.apply_effects(Seq::empty(), is_user) == player,
{
    assert(player.wf() ==> player.apply_effects(Seq::empty(), is_user).resources == player.resources);
    lemma_side_filtering(effects, EffectKind::ResourceChange, is_user);
    lemma_side_filtering(effects, EffectKind::ProductionChange, is_user);
    lemma_side_filtering(effects, EffectKind::TowerGrowth, is_user);
    lemma_side_filtering(effects, EffectKind::WallsGrowth, is_user);
    lemma_side_filtering(effects, EffectKind::Damage, is_user);
}

} // verus!
