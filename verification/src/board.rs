//! A match between two players: their seats, whose turn it is, and how a
//! move is made and a turn passes.

use crate::card::{Card, CardModel};
use crate::consts::CARDS_IN_DECK;
use crate::hand::{
    all_wf, dealt, deck_view, first_affordable, lemma_dealt_is_wf, lemma_first_affordable,
    lemma_replaced_keeps_wf, position, replaced, HandCards,
};
use crate::player::{Player, PlayerModel};
use vstd::prelude::*;

verus! {

/// Which of the two players.
#[derive(PartialEq, Eq, Hash, Copy, Debug, Clone, Structural)]
pub enum PlayerNumber {
    First,
    Second,
}

impl Default for PlayerNumber {
    fn default() -> (number: PlayerNumber)
        ensures
            number == PlayerNumber::First,
    {
        PlayerNumber::First
    }
}

impl PlayerNumber {
    /// The other player.
    pub open spec fn spec_other(self) -> PlayerNumber {
        match self {
            PlayerNumber::First => PlayerNumber::Second,
            PlayerNumber::Second => PlayerNumber::First,
        }
    }

    /// The other player.
    #[verifier::when_used_as_spec(spec_other)]
    pub fn other(self) -> (other: PlayerNumber)
        ensures
            other == self.spec_other(),
    {
        match self {
            PlayerNumber::First => PlayerNumber::Second,
            PlayerNumber::Second => PlayerNumber::First,
        }
    }
}

/// What a player has decided to do with a card in hand.
#[derive(Debug, Clone)]
pub enum ActionTaken {
    UseCard { card: Card },
    DropCard { card: Card },
}

impl ActionTaken {
    /// The card that the action is about.
    pub open spec fn spec_card(&self) -> &Card {
        match self {
            ActionTaken::UseCard { card } => card,
            ActionTaken::DropCard { card } => card,
        }
    }

    /// The card that the action is about.
    #[verifier::when_used_as_spec(spec_card)]
    pub fn card(&self) -> (card: &Card)
        ensures
            card == self.spec_card(),
    {
        match self {
            ActionTaken::UseCard { card } => card,
            ActionTaken::DropCard { card } => card,
        }
    }

    /// What the action does to the state of a player: a used card is played
    /// on it, a dropped card leaves it as it is.
    pub open spec fn effect_on(&self, player: PlayerModel, is_caller: bool) -> PlayerModel {
        match self {
            ActionTaken::UseCard { card } => player.card_used(card@, is_caller),
            ActionTaken::DropCard { card } => player,
        }
    }
}

/// One side of the table, as plain values.
pub struct SeatModel {
    pub player: PlayerModel,
    pub hand: Seq<CardModel>,
    pub human: bool,
    pub active: bool,
}

impl SeatModel {
    /// The player's state is well formed, and the hand is full and holds
    /// well-formed cards only.
    pub open spec fn wf(self) -> bool {
        &&& self.player.wf()
        &&& self.hand.len() == CARDS_IN_DECK
        &&& all_wf(self.hand)
    }
}

/// One side of the table: a player's state and hand, whether a human plays
/// it, and whether it still has its move to make in this turn.
#[derive(Debug, Clone, PartialEq)]
pub struct Seat {
    pub player: Player,
    pub hand: HandCards,
    pub human: bool,
    pub active: bool,
}

impl View for Seat {
    type V = SeatModel;

    open spec fn view(&self) -> SeatModel {
        SeatModel {
            player: self.player@,
            hand: self.hand@,
            human: self.human,
            active: self.active,
        }
    }
}

impl Seat {
    /// A seat at the start of a match, with a hand dealt at random from the
    /// given cards.
    pub fn new(active: bool, human: bool, cards: &[Card]) -> (seat: Seat)
        requires
            cards@.len() > 0,
        ensures
            seat@.player == PlayerModel::base(),
            seat@.human == human,
            seat@.active == active,
            dealt(seat@.hand, cards@),
            all_wf(deck_view(cards@)) ==> seat@.wf(),
    {
        let seat = Seat { player: Player::new(), hand: HandCards::generate_random(cards), human, active };
        proof {
            if all_wf(deck_view(cards@)) {
                lemma_dealt_is_wf(seat@.hand, cards@);
            }
        }
        seat
    }

    /// Puts the seat back to the start of a match, with a new hand dealt at
    /// random from the given cards.
    pub fn reset(&mut self, active: bool, human: bool, cards: &[Card])
        requires
            cards@.len() > 0,
        ensures
            final(self)@.player == PlayerModel::base(),
            final(self)@.human == human,
            final(self)@.active == active,
            dealt(final(self)@.hand, cards@),
            all_wf(deck_view(cards@)) ==> final(self)@.wf(),
    {
        let seat = Seat::new(active, human, cards);
        *self = seat;
    }

    /// Whether the seat still has its move to make in this turn.
    pub fn is_active(&self) -> (active: bool)
        ensures
            active == self@.active,
    {
        self.active
    }

    /// Whether a human plays this seat.
    pub fn is_human(&self) -> (human: bool)
        ensures
            human == self@.human,
    {
        self.human
    }

    /// Begins the seat's turn: every supply produces, and the seat has its
    /// move to make.
    pub fn start_new_turn(&mut self)
        requires
            old(self)@.player.start_new_turn().representable(),
        ensures
            final(self)@ == (SeatModel {
                player: old(self)@.player.start_new_turn(),
                active: true,
                ..old(self)@
            }),
    {
        self.player.start_new_turn();
        self.active = true;
    }

    /// Replaces the card at `nr` by one drawn at random from the given
    /// cards, which ends the seat's move.
    pub fn replace_card(&mut self, nr: usize, cards: &[Card])
        requires
            nr < old(self)@.hand.len(),
            cards@.len() > 0,
        ensures
            final(self)@.player == old(self)@.player,
            final(self)@.human == old(self)@.human,
            !final(self)@.active,
            replaced(old(self)@.hand, final(self)@.hand, nr as int, cards@, old(self)@.player.resources),
    {
        self.hand.replace_card(nr, &self.player.resources, cards);
        self.active = false;
    }

    /// The move of a seat that does not think: the first card in hand that
    /// the player can afford is played; where there is none, a card chosen
    /// at random is discarded. Gives the place of the card and whether it
    /// is discarded.
    pub fn get_possible_move(&self) -> (choice: (i32, bool))
        requires
            self@.hand.len() == CARDS_IN_DECK,
        ensures
            0 <= choice.0 < self@.hand.len(),
            match first_affordable(self@.hand, self@.player.resources) {
                Some(i) => choice.0 == i && !choice.1,
                None => choice.1,
            },
    {
        self.hand.get_possible_move(&self.player.resources)
    }
}

/// Whether the action is carried out: a card is dropped in any case, and
/// used where the player who decided can afford it.
pub open spec fn carried_out(caller: SeatModel, action: &ActionTaken) -> bool {
    !(action is UseCard && !caller.player.can_afford(action.card()@))
}

/// Carries out what the player in the seat `caller` has decided, and tells
/// whether it was carried out.
///
/// A used card that the caller cannot afford is refused: neither seat
/// changes. Any other used card is played on both players: the caller pays
/// its cost and takes the effects aimed at the user, the other player takes
/// the effects aimed at the opponent. A dropped card changes no player.
/// Where the action is carried out, the caller gets a card drawn at random
/// from `cards` in place of the one named, at the first place where the
/// hand holds that card; a hand that does not hold it stays as it is. The
/// hand of the other seat stays as it is in any case.
///
/// Carried out or refused, the action is spent: the turn passes as after
/// any action, and the caller decides again when the turn comes back.
pub fn perform_action(
    caller: &mut Seat,
    other: &mut Seat,
    action: &ActionTaken,
    cards: &[Card],
) -> (done: bool)
    requires
        action is UseCard && old(caller)@.player.can_afford(action.card()@) ==> action.card().wf()
            && old(caller)@.player.card_used(action.card()@, true).representable() && old(other)@.player.card_used(action.card()@, false).representable(),
        carried_out(old(caller)@, action) && position(old(caller)@.hand, action.card()@).is_some()
            ==> cards@.len() > 0,
    ensures
        done == carried_out(old(caller)@, action),
        !done ==> *final(caller) == *old(caller) && *final(other) == *old(other),
        done ==> final(other)@ == (SeatModel {
            player: action.effect_on(old(other)@.player, false),
            ..old(other)@
        }),
        done ==> final(caller)@.player == action.effect_on(old(caller)@.player, true),
        done ==> final(caller)@.human == old(caller)@.human && final(caller)@.active == old(caller)@.active,
        done ==> (match position(old(caller)@.hand, action.card()@) {
            Some(id) => replaced(
                old(caller)@.hand,
                final(caller)@.hand,
                id,
                cards@,
                final(caller)@.player.resources,
            ),
            None => final(caller)@.hand == old(caller)@.hand,
        }),
{
    match action {
        ActionTaken::UseCard { card } => {
            if !caller.player.can_afford(card) {
                return false;
            }
            caller.player.card_used(card, true);
            other.player.card_used(card, false);
        },
        ActionTaken::DropCard { card: _ } => {},
    }
    match caller.hand.position(action.card()) {
        Some(id) => {
            caller.hand.replace_card(id, &caller.player.resources, cards);
        },
        None => {},
    }
    true
}

/// How an attempt to make a move ended.
#[derive(PartialEq, Eq, Copy, Debug, Clone, Structural)]
pub enum MoveOutcome {
    /// The card was discarded and replaced.
    Discarded,
    /// The player cannot afford the card: nothing happened.
    Refused,
    /// The card was played and replaced.
    Played,
}

/// Whether the card at `index` of the hand of `user` can be played against
/// `opponent`: it is well formed, and what it does to either player can be
/// held in `i32` fields.
pub open spec fn playable(user: SeatModel, opponent: SeatModel, index: int) -> bool {
    &&& 0 <= index < user.hand.len()
    &&& user.hand[index].wf()
    &&& user.player.card_used(user.hand[index], true).representable()
    &&& opponent.player.card_used(user.hand[index], false).representable()
}

/// What a move does, for every card that may be drawn. A discarded card is
/// replaced, and the move is over. A card that the user cannot afford
/// changes nothing. Any other card is played on both players and replaced,
/// and the move is over.
pub open spec fn moved(
    user: SeatModel,
    opponent: SeatModel,
    user_after: SeatModel,
    opponent_after: SeatModel,
    index: int,
    discard: bool,
    cards: Seq<Card>,
    outcome: MoveOutcome,
) -> bool {
    let card = user.hand[index];
    if discard {
        &&& outcome == MoveOutcome::Discarded
        &&& opponent_after == opponent
        &&& user_after.player == user.player
        &&& user_after.human == user.human
        &&& !user_after.active
        &&& replaced(user.hand, user_after.hand, index, cards, user.player.resources)
    } else if !user.player.can_afford(card) {
        &&& outcome == MoveOutcome::Refused
        &&& opponent_after == opponent
        &&& user_after == user
    } else {
        &&& outcome == MoveOutcome::Played
        &&& opponent_after == (SeatModel { player: opponent.player.card_used(card, false), ..opponent })
        &&& user_after.player == user.player.card_used(card, true)
        &&& user_after.human == user.human
        &&& !user_after.active
        &&& replaced(user.hand, user_after.hand, index, cards, user_after.player.resources)
    }
}

/// Makes a move with the card at `index` of the user's hand: discards it, or
/// plays it if the user can afford it.
pub fn make_move(
    user: &mut Seat,
    opponent: &mut Seat,
    index: usize,
    discard: bool,
    cards: &[Card],
) -> (outcome: MoveOutcome)
    requires
        index < old(user)@.hand.len(),
        discard || old(user)@.player.can_afford(old(user)@.hand[index as int]) ==> cards@.len() > 0,
        !discard && old(user)@.player.can_afford(old(user)@.hand[index as int]) ==> playable(
            old(user)@,
            old(opponent)@,
            index as int,
        ),
    ensures
        moved(
            old(user)@,
            old(opponent)@,
            final(user)@,
            final(opponent)@,
            index as int,
            discard,
            cards@,
            outcome,
        ),
        outcome == MoveOutcome::Refused ==> *final(user) == *old(user) && *final(opponent) == *old(opponent),
{
    if discard {
        user.replace_card(index, cards);
        return MoveOutcome::Discarded;
    }
    if !user.player.can_afford(&user.hand.0[index]) {
        return MoveOutcome::Refused;
    }
    user.player.card_used(&user.hand.0[index], true);
    opponent.player.card_used(&user.hand.0[index], false);
    user.replace_card(index, cards);
    MoveOutcome::Played
}

/// A move keeps well-formed seats well formed, where the cards to draw from
/// are well formed and the card played deals no negative damage.
pub proof fn lemma_move_keeps_wf(
    user: SeatModel,
    opponent: SeatModel,
    user_after: SeatModel,
    opponent_after: SeatModel,
    index: int,
    discard: bool,
    cards: Seq<Card>,
    outcome: MoveOutcome,
)
    requires
        user.wf(),
        opponent.wf(),
        all_wf(deck_view(cards)),
        0 <= index < user.hand.len(),
        !discard ==> crate::card::total(user.hand[index].effects, crate::card::EffectKind::Damage, true)
            >= 0 && crate::card::total(
            user.hand[index].effects,
            crate::card::EffectKind::Damage,
            false,
        ) >= 0,
        moved(user, opponent, user_after, opponent_after, index, discard, cards, outcome),
    ensures
        user_after.wf(),
        opponent_after.wf(),
{
    let card = user.hand[index];
    if discard {
        lemma_replaced_keeps_wf(user.hand, user_after.hand, index, cards, user.player.resources);
    } else if user.player.can_afford(card) {
        crate::player::lemma_card_used_keeps_wf(user.player, card, true);
        crate::player::lemma_card_used_keeps_wf(opponent.player, card, false);
        lemma_replaced_keeps_wf(
            user.hand,
            user_after.hand,
            index,
            cards,
            user_after.player.resources,
        );
    }
}

/// What a step of the match brought.
#[derive(PartialEq, Eq, Copy, Debug, Clone, Structural)]
pub enum BoardEvent {
    /// The match is over: nothing happened.
    Over,
    /// It is a human's turn: the board waits for the move.
    AwaitingMove,
    /// The seat whose turn it is made a move with the card at the given place.
    Moved(usize, MoveOutcome),
    /// The turn passed to the other player.
    TurnPassed,
    /// The match ended, and the given player has won.
    Won(PlayerNumber),
}

/// The winner, if there is one. Where a tower has fallen, the first player
/// wins if the first tower stands, else the second. Otherwise, where a tower
/// has reached its greatest height, the first player wins if the first
/// tower has, else the second.
pub open spec fn winner_of(first: PlayerModel, second: PlayerModel) -> Option<PlayerNumber> {
    if !first.is_alive() || !second.is_alive() {
        Some(
            if first.is_alive() {
                PlayerNumber::First
            } else {
                PlayerNumber::Second
            },
        )
    } else if first.has_max_possible_tower() || second.has_max_possible_tower() {
        Some(
            if first.has_max_possible_tower() {
                PlayerNumber::First
            } else {
                PlayerNumber::Second
            },
        )
    } else {
        None
    }
}

/// A match, as plain values.
pub struct BoardModel {
    pub first: SeatModel,
    pub second: SeatModel,
    pub active_player: PlayerNumber,
    pub game_ended: bool,
}

impl BoardModel {
    /// The seat of the given player.
    pub open spec fn seat(self, number: PlayerNumber) -> SeatModel {
        match number {
            PlayerNumber::First => self.first,
            PlayerNumber::Second => self.second,
        }
    }

    /// This match with the seat of the given player replaced.
    pub open spec fn with_seat(self, number: PlayerNumber, seat: SeatModel) -> BoardModel {
        match number {
            PlayerNumber::First => BoardModel { first: seat, ..self },
            PlayerNumber::Second => BoardModel { second: seat, ..self },
        }
    }

    /// The seat whose turn it is.
    pub open spec fn user(self) -> SeatModel {
        self.seat(self.active_player)
    }

    /// The seat whose turn it is not.
    pub open spec fn opponent(self) -> SeatModel {
        self.seat(self.active_player.other())
    }

    /// Both seats are well formed.
    pub open spec fn wf(self) -> bool {
        self.first.wf() && self.second.wf()
    }

    /// The winner, if there is one.
    pub open spec fn winner(self) -> Option<PlayerNumber> {
        winner_of(self.first.player, self.second.player)
    }

    /// The turn passed to the other player, whose supplies produce.
    pub open spec fn switch_player(self) -> BoardModel {
        let next = self.active_player.other();
        BoardModel {
            active_player: next,
            ..self.with_seat(
                next,
                SeatModel { player: self.seat(next).player.start_new_turn(), active: true, ..self.seat(next) },
            )
        }
    }

    /// The end of a move: the match ends where there is a winner, else the
    /// turn passes.
    pub open spec fn handle_move_end(self) -> BoardModel {
        if self.winner().is_some() {
            BoardModel { game_ended: true, ..self }
        } else {
            self.switch_player()
        }
    }

    /// Whether the machine is to make a move at the next step: the match is
    /// not over, and the seat whose turn it is has its move to make and is
    /// played by no human.
    pub open spec fn machine_moves(self) -> bool {
        !self.game_ended && self.user().active && !self.user().human
    }

    /// Whether a step can be taken: what the step does can be held in `i32`
    /// fields, and where the machine is to make a move, its hand is full.
    pub open spec fn can_update(self) -> bool {
        &&& !self.game_ended && !self.user().active && self.winner().is_none()
            ==> self.opponent().player.start_new_turn().representable()
        &&& self.machine_moves() ==> self.user().hand.len() == CARDS_IN_DECK && (match first_affordable(
            self.user().hand,
            self.user().player.resources,
        ) {
            Some(i) => playable(self.user(), self.opponent(), i),
            None => true,
        })
    }
}

/// A match: two seats, whose turn it is, and whether it is over.
#[derive(Debug, Clone, PartialEq)]
pub struct Board {
    pub first: Seat,
    pub second: Seat,
    pub active_player: PlayerNumber,
    pub game_ended: bool,
}

impl View for Board {
    type V = BoardModel;

    open spec fn view(&self) -> BoardModel {
        BoardModel {
            first: self.first@,
            second: self.second@,
            active_player: self.active_player,
            game_ended: self.game_ended,
        }
    }
}

impl Board {
    /// A new match between a human, who begins, and the machine, with hands
    /// dealt at random from the given cards.
    pub fn new_board(cards: &[Card]) -> (board: Board)
        requires
            cards@.len() > 0,
        ensures
            board@.active_player == PlayerNumber::First,
            !board@.game_ended,
            board@.first.player == PlayerModel::base(),
            board@.second.player == PlayerModel::base(),
            board@.first.human && board@.first.active,
            !board@.second.human && !board@.second.active,
            dealt(board@.first.hand, cards@),
            dealt(board@.second.hand, cards@),
            all_wf(deck_view(cards@)) ==> board@.wf(),
    {
        Board {
            first: Seat::new(true, true, cards),
            second: Seat::new(false, false, cards),
            active_player: PlayerNumber::First,
            game_ended: false,
        }
    }

    /// Starts the match anew, with hands dealt at random from the given
    /// cards. The first player begins; with `ai_only` the machine plays
    /// both seats.
    pub fn reset_game(&mut self, ai_only: bool, cards: &[Card])
        requires
            cards@.len() > 0,
        ensures
            !final(self)@.game_ended,
            final(self)@.active_player == old(self)@.active_player,
            final(self)@.first.player == PlayerModel::base(),
            final(self)@.second.player == PlayerModel::base(),
            final(self)@.first.human == !ai_only && final(self)@.first.active,
            !final(self)@.second.human && !final(self)@.second.active,
            dealt(final(self)@.first.hand, cards@),
            dealt(final(self)@.second.hand, cards@),
            all_wf(deck_view(cards@)) ==> final(self)@.wf(),
    {
        self.first.reset(true, !ai_only, cards);
        self.second.reset(false, false, cards);
        self.game_ended = false;
    }

    /// Whether the match is over.
    pub fn is_game_ended(&self) -> (ended: bool)
        ensures
            ended == self@.game_ended,
    {
        self.game_ended
    }

    /// The player whose turn it is not.
    pub fn other_player(&self) -> (other: PlayerNumber)
        ensures
            other == self@.active_player.other(),
    {
        if self.active_player == PlayerNumber::First {
            PlayerNumber::Second
        } else {
            PlayerNumber::First
        }
    }

    /// The seat of the given player.
    pub fn seat(&self, number: PlayerNumber) -> (seat: &Seat)
        ensures
            seat@ == self@.seat(number),
            *seat == match number {
                PlayerNumber::First => self.first,
                PlayerNumber::Second => self.second,
            },
    {
        match number {
            PlayerNumber::First => &self.first,
            PlayerNumber::Second => &self.second,
        }
    }

    /// Whether a human plays the seat whose turn it is.
    pub fn is_human_playing(&self) -> (human: bool)
        ensures
            human == self@.user().human,
    {
        self.seat(self.active_player).is_human()
    }

    /// Whether the card at `index` of the hand of the seat whose turn it is
    /// can be played.
    pub fn can_play(&self, index: usize) -> (ok: bool)
        ensures
            ok == playable(self@.user(), self@.opponent(), index as int),
    {
        let user = self.seat(self.active_player);
        let opponent = self.seat(self.other_player());
        if index >= user.hand.0.len() {
            return false;
        }
        let card = &user.hand.0[index];
        user.player.can_use(card, true) && opponent.player.can_use(card, false)
    }

    /// The seat whose turn it is makes a move with the card at `index` of
    /// its hand: discards it, or plays it if it can afford it.
    pub fn try_use_card(&mut self, index: usize, discard: bool, cards: &[Card]) -> (outcome: MoveOutcome)
        requires
            index < old(self)@.user().hand.len(),
            discard || old(self)@.user().player.can_afford(old(self)@.user().hand[index as int])
                ==> cards@.len() > 0,
            !discard && old(self)@.user().player.can_afford(old(self)@.user().hand[index as int])
                ==> playable(old(self)@.user(), old(self)@.opponent(), index as int),
        ensures
            final(self)@.active_player == old(self)@.active_player,
            final(self)@.game_ended == old(self)@.game_ended,
            moved(
                old(self)@.user(),
                old(self)@.opponent(),
                final(self)@.user(),
                final(self)@.opponent(),
                index as int,
                discard,
                cards@,
                outcome,
            ),
            outcome == MoveOutcome::Refused ==> *final(self) == *old(self),
    {
        match self.active_player {
            PlayerNumber::First => make_move(&mut self.first, &mut self.second, index, discard, cards),
            PlayerNumber::Second => make_move(&mut self.second, &mut self.first, index, discard, cards),
        }
    }

    /// Passes the turn to the other player, whose supplies produce.
    pub fn switch_player(&mut self)
        requires
            old(self)@.opponent().player.start_new_turn().representable(),
        ensures
            final(self)@ == old(self)@.switch_player(),
    {
        self.active_player = self.other_player();
        match self.active_player {
            PlayerNumber::First => self.first.start_new_turn(),
            PlayerNumber::Second => self.second.start_new_turn(),
        }
    }

    /// The winner, if there is one.
    pub fn winner(&self) -> (winner: Option<PlayerNumber>)
        ensures
            winner == self@.winner(),
    {
        let first = &self.first.player;
        let second = &self.second.player;
        if !first.is_alive() || !second.is_alive() {
            Some(
                if first.is_alive() {
                    PlayerNumber::First
                } else {
                    PlayerNumber::Second
                },
            )
        } else if first.has_max_possible_tower() || second.has_max_possible_tower() {
            Some(
                if first.has_max_possible_tower() {
                    PlayerNumber::First
                } else {
                    PlayerNumber::Second
                },
            )
        } else {
            None
        }
    }

    /// Ends a move: where there is a winner the match ends, else the turn
    /// passes to the other player. Gives the winner, if there is one.
    pub fn handle_move_end(&mut self) -> (winner: Option<PlayerNumber>)
        requires
            old(self)@.winner().is_none() ==> old(self)@.opponent().player.start_new_turn().representable(),
        ensures
            winner == old(self)@.winner(),
            final(self)@ == old(self)@.handle_move_end(),
    {
        let winner = self.winner();
        if winner.is_some() {
            self.game_ended = true;
        } else {
            self.switch_player();
        }
        winner
    }

    /// Whether `update` can be called.
    pub fn can_update(&self) -> (ok: bool)
        ensures
            ok == self@.can_update(),
    {
        let user = self.seat(self.active_player);
        let opponent = self.seat(self.other_player());
        if self.game_ended {
            return true;
        }
        if !user.active {
            return self.winner().is_some() || opponent.player.can_start_new_turn();
        }
        if user.human {
            return true;
        }
        if user.hand.0.len() != CARDS_IN_DECK as usize {
            return false;
        }
        match user.hand.first_affordable(&user.player.resources) {
            Some(i) => self.can_play(i),
            None => true,
        }
    }

    /// Takes one step of the match. Nothing happens once the match is over.
    /// Where the seat whose turn it is has made its move, the move ends:
    /// the match ends where there is a winner, else the turn passes. Where
    /// it has not and the machine plays it, it makes its move: it plays the
    /// first card that it can afford, or discards one at random. Where a
    /// human plays it, the board waits.
    pub fn update(&mut self, cards: &[Card]) -> (event: BoardEvent)
        requires
            old(self)@.can_update(),
            old(self)@.machine_moves() ==> cards@.len() > 0,
        ensures
            old(self)@.game_ended ==> event == BoardEvent::Over && *final(self) == *old(self),
            !old(self)@.game_ended && !old(self)@.user().active ==> final(self)@ == old(self)@.handle_move_end() && event == (match old(self)@.winner() {
                Some(winner) => BoardEvent::Won(winner),
                None => BoardEvent::TurnPassed,
            }),
            !old(self)@.game_ended && old(self)@.user().active && old(self)@.user().human ==> event
                == BoardEvent::AwaitingMove && *final(self) == *old(self),
            !old(self)@.game_ended && old(self)@.user().active && !old(self)@.user().human ==> (
            match event {
                BoardEvent::Moved(index, outcome) => {
                    &&& index < CARDS_IN_DECK
                    &&& final(self)@.active_player == old(self)@.active_player
                    &&& !final(self)@.game_ended
                    &&& outcome != MoveOutcome::Refused
                    &&& match first_affordable(old(self)@.user().hand, old(self)@.user().player.resources) {
                        Some(i) => index == i && outcome == MoveOutcome::Played,
                        None => outcome == MoveOutcome::Discarded,
                    }
                    &&& moved(
                        old(self)@.user(),
                        old(self)@.opponent(),
                        final(self)@.user(),
                        final(self)@.opponent(),
                        index as int,
                        outcome == MoveOutcome::Discarded,
                        cards@,
                        outcome,
                    )
                },
                _ => false,
            }),
    {
        if self.game_ended {
            return BoardEvent::Over;
        }
        if !self.seat(self.active_player).is_active() {
            return match self.handle_move_end() {
                Some(winner) => BoardEvent::Won(winner),
                None => BoardEvent::TurnPassed,
            };
        }
        if self.is_human_playing() {
            return BoardEvent::AwaitingMove;
        }
        let choice = self.seat(self.active_player).get_possible_move();
        let index: usize = choice.0 as usize;
        proof {
            lemma_first_affordable(self@.user().hand, self@.user().player.resources);
        }
        let outcome = self.try_use_card(index, choice.1, cards);
        BoardEvent::Moved(index, outcome)
    }
}

} // verus!
