use slavic_castles::board::{
    make_move, perform_action, ActionTaken, Board, BoardEvent, MoveOutcome, PlayerNumber, Seat,
};
use slavic_castles::card::{Card, CardEffect, EffectType};
use slavic_castles::consts::{BASE_TOWER_HP, BASE_WALLS_HP, CARDS_IN_DECK};
use slavic_castles::hand::HandCards;
use slavic_castles::player::{game_ended_condition, Player};
use slavic_castles::resource::ResourceType;
use slavic_castles::turn::{search_for_actors, ActorTurn, GameState, GameTurnSteps};

fn strike() -> Card {
    Card {
        name: String::from("strike"),
        id: 1,
        cost_amount: 1,
        cost_resource: ResourceType::Soldiers,
        effects: vec![CardEffect { affects_user: false, effect_type: EffectType::Damage(5, false) }],
    }
}

fn dear() -> Card {
    Card {
        name: String::from("dear"),
        id: 2,
        cost_amount: 100,
        cost_resource: ResourceType::Magic,
        effects: vec![CardEffect { affects_user: true, effect_type: EffectType::TowerGrowth(40) }],
    }
}

#[test]
fn a_new_board_starts_with_the_human() {
    let cards = vec![strike()];
    let board = Board::new_board(&cards);
    assert_eq!(board.active_player, PlayerNumber::First);
    assert!(!board.is_game_ended());
    assert!(board.first.is_human() && board.first.is_active());
    assert!(!board.second.is_human() && !board.second.is_active());
    assert_eq!(board.first.player, Player::new());
    assert_eq!(board.second.player, Player::new());
    assert_eq!(board.first.hand.0.len(), CARDS_IN_DECK as usize);
    assert_eq!(board.second.hand.0.len(), CARDS_IN_DECK as usize);
    assert!(board.is_human_playing());
    assert_eq!(board.other_player(), PlayerNumber::Second);
    assert_eq!(PlayerNumber::Second.other(), PlayerNumber::First);
    assert_eq!(PlayerNumber::default(), PlayerNumber::First);
    assert_eq!(board.winner(), None);
    assert!(board.can_update());
}

#[test]
fn a_played_card_costs_the_user_and_hits_the_opponent() {
    let cards = vec![strike()];
    let mut board = Board::new_board(&cards);
    assert!(board.can_play(0));
    assert!(!board.can_play(5));
    assert_eq!(board.try_use_card(0, false, &cards), MoveOutcome::Played);
    assert_eq!(board.first.player.resources.soldiers.amount, 2);
    assert_eq!(board.first.player.tower_hp, BASE_TOWER_HP);
    assert_eq!(board.first.player.walls_hp, BASE_WALLS_HP);
    assert_eq!(board.second.player.walls_hp, 0);
    assert_eq!(board.second.player.tower_hp, BASE_TOWER_HP);
    assert_eq!(board.second.player.resources, Player::new().resources);
    assert!(!board.first.is_active());
    assert_eq!(board.first.hand.0.len(), CARDS_IN_DECK as usize);
    assert_eq!(board.active_player, PlayerNumber::First);
}

#[test]
fn a_discarded_card_is_replaced_and_changes_no_player() {
    let cards = vec![strike(), dear()];
    let mut board = Board::new_board(&cards);
    let before = board.clone();
    assert_eq!(board.try_use_card(3, true, &cards), MoveOutcome::Discarded);
    assert_eq!(board.first.player, before.first.player);
    assert_eq!(board.second, before.second);
    assert!(!board.first.is_active());
    for k in [0usize, 1, 2, 4] {
        assert_eq!(board.first.hand.0[k], before.first.hand.0[k]);
    }
    assert!(cards.contains(&board.first.hand.0[3]));
}

#[test]
fn an_unaffordable_card_is_refused() {
    let cards = vec![dear()];
    let mut board = Board::new_board(&cards);
    let before = board.clone();
    assert_eq!(board.try_use_card(0, false, &cards), MoveOutcome::Refused);
    assert_eq!(board, before);
}

#[test]
fn the_turn_passes_and_the_next_player_produces() {
    let cards = vec![strike()];
    let mut board = Board::new_board(&cards);
    assert_eq!(board.update(&cards), BoardEvent::AwaitingMove);
    board.try_use_card(0, false, &cards);
    assert_eq!(board.update(&cards), BoardEvent::TurnPassed);
    assert_eq!(board.active_player, PlayerNumber::Second);
    assert!(board.second.is_active());
    assert_eq!(board.second.player.resources.soldiers.amount, 4);
    assert_eq!(board.second.player.resources.tools.amount, 4);
    assert_eq!(board.second.player.resources.magic.amount, 4);
    assert_eq!(board.first.player.resources.soldiers.amount, 2);
    // the machine plays the first card it can afford
    assert_eq!(board.update(&cards), BoardEvent::Moved(0, MoveOutcome::Played));
    assert_eq!(board.second.player.resources.soldiers.amount, 3);
    assert_eq!(board.first.player.walls_hp, 0);
    assert!(!board.second.is_active());
}

#[test]
fn the_machine_discards_where_it_can_afford_nothing() {
    let cards = vec![dear()];
    let mut board = Board::new_board(&cards);
    board.reset_game(true, &cards);
    assert!(!board.first.is_human());
    match board.update(&cards) {
        BoardEvent::Moved(index, outcome) => {
            assert!(index < CARDS_IN_DECK as usize);
            assert_eq!(outcome, MoveOutcome::Discarded);
        }
        other => panic!("unexpected event {:?}", other),
    }
    assert!(!board.first.is_active());
    assert_eq!(board.first.player, Player::new());
}

#[test]
fn a_match_is_played_to_its_end() {
    let cards = vec![strike()];
    let mut board = Board::new_board(&cards);
    let mut winner = None;
    let mut steps = 0;
    while winner.is_none() {
        steps += 1;
        assert!(steps < 100);
        assert!(board.can_update());
        match board.update(&cards) {
            BoardEvent::AwaitingMove => {
                assert_eq!(board.try_use_card(0, false, &cards), MoveOutcome::Played);
            }
            BoardEvent::Won(player) => winner = Some(player),
            BoardEvent::Over => panic!("over before anybody won"),
            BoardEvent::Moved(_, outcome) => assert_eq!(outcome, MoveOutcome::Played),
            BoardEvent::TurnPassed => {}
        }
    }
    // the first player strikes first: walls 5, then the tower 15 in three strikes
    assert_eq!(winner, Some(PlayerNumber::First));
    assert!(board.is_game_ended());
    assert_eq!(board.second.player.tower_hp, 0);
    assert_eq!(board.first.player.tower_hp, 5);
    assert_eq!(board.update(&cards), BoardEvent::Over);
    board.reset_game(false, &cards);
    assert!(!board.is_game_ended());
    assert_eq!(board.second.player, Player::new());
}

#[test]
fn the_winner_is_who_stands_or_who_is_highest() {
    let cards = vec![strike()];
    let mut board = Board::new_board(&cards);
    assert_eq!(board.winner(), None);
    board.first.player.tower_hp = 0;
    assert_eq!(board.winner(), Some(PlayerNumber::Second));
    board.second.player.tower_hp = 0;
    assert_eq!(board.winner(), Some(PlayerNumber::Second));
    board.first.player.tower_hp = 7;
    assert_eq!(board.winner(), Some(PlayerNumber::First));
    board.second.player.tower_hp = 50;
    assert_eq!(board.winner(), Some(PlayerNumber::Second));
    board.first.player.tower_hp = 50;
    assert_eq!(board.winner(), Some(PlayerNumber::First));
    assert_eq!(board.handle_move_end(), Some(PlayerNumber::First));
    assert!(board.is_game_ended());
    assert_eq!(board.active_player, PlayerNumber::First);
}

#[test]
fn a_move_can_be_made_between_any_two_seats() {
    let cards = vec![strike()];
    let mut user = Seat::new(true, false, &cards);
    let mut opponent = Seat::new(false, false, &cards);
    assert_eq!(make_move(&mut user, &mut opponent, 4, false, &cards), MoveOutcome::Played);
    assert_eq!(user.player.resources.soldiers.amount, 2);
    assert_eq!(opponent.player.walls_hp, 0);
    assert_eq!(user.get_possible_move(), (0, false));
    user.start_new_turn();
    assert!(user.is_active());
    assert_eq!(user.player.resources.soldiers.amount, 3);
    user.replace_card(2, &cards);
    assert!(!user.is_active());
    user.reset(true, true, &cards);
    assert!(user.is_human() && user.is_active());
    assert_eq!(user.player, Player::new());
}

#[test]
fn an_action_is_carried_out_on_both_seats() {
    let cards = vec![strike(), dear()];
    let hand = HandCards(vec![dear(), strike(), strike(), dear(), dear()]);
    let mut caller = Seat { player: Player::new(), hand: hand.clone(), human: true, active: true };
    let mut other = Seat { player: Player::new(), hand: hand.clone(), human: false, active: false };
    let action = ActionTaken::UseCard { card: strike() };
    assert!(perform_action(&mut caller, &mut other, &action, &cards));
    assert_eq!(caller.player.resources.soldiers.amount, 2);
    assert_eq!(caller.player.walls_hp, BASE_WALLS_HP);
    assert_eq!(other.player.walls_hp, 0);
    assert_eq!(other.player.tower_hp, BASE_TOWER_HP);
    assert_eq!(other.player.resources, Player::new().resources);
    assert_eq!(other.hand, hand);
    assert_eq!(caller.hand.0[0], hand.0[0]);
    assert_eq!(caller.hand.0[2], hand.0[2]);
    assert!(cards.contains(&caller.hand.0[1]));
    assert!(caller.active && !other.active);
    assert!(caller.human && !other.human);
    assert_eq!(action.card(), &strike());
    assert_eq!(action.sound_asset(), "snd/card_soldiers.ogg");
}

#[test]
fn a_card_that_its_user_cannot_afford_is_refused() {
    let cards = vec![strike(), dear()];
    let hand = HandCards(vec![dear(), strike(), strike(), dear(), dear()]);
    let mut caller = Seat { player: Player::new(), hand: hand.clone(), human: false, active: true };
    let mut other = Seat { player: Player::new(), hand: hand.clone(), human: true, active: false };
    caller.player.resources.soldiers.amount = 2;
    let raid = Card { cost_amount: 3, ..strike() };
    let (before_caller, before_other) = (caller.clone(), other.clone());
    assert!(!perform_action(&mut caller, &mut other, &ActionTaken::UseCard { card: raid.clone() }, &cards));
    assert_eq!(caller, before_caller);
    assert_eq!(other, before_other);
    assert_eq!(caller.player.resources.soldiers.amount, 2);

    // a card it cannot afford and does not hold, and no deck to draw from
    assert!(!perform_action(&mut caller, &mut other, &ActionTaken::UseCard { card: dear() }, &[]));
    assert_eq!(caller, before_caller);
    assert_eq!(other, before_other);

    // at the exact cost the card is played
    caller.player.resources.soldiers.amount = 3;
    assert!(perform_action(&mut caller, &mut other, &ActionTaken::UseCard { card: raid }, &cards));
    assert_eq!(caller.player.resources.soldiers.amount, 0);
    assert_eq!(other.player.walls_hp, 0);
    assert_eq!(caller.hand, before_caller.hand);
}

#[test]
fn a_dropped_card_is_replaced_and_changes_no_player() {
    let cards = vec![strike(), dear()];
    let hand = HandCards(vec![dear(), strike(), strike(), dear(), dear()]);
    let mut caller = Seat { player: Player::new(), hand: hand.clone(), human: true, active: true };
    let mut other = Seat { player: Player::new(), hand: hand.clone(), human: false, active: false };
    let drop = ActionTaken::DropCard { card: dear() };
    let before_other = other.clone();
    assert!(perform_action(&mut caller, &mut other, &drop, &cards));
    assert_eq!(caller.player, Player::new());
    assert_eq!(other, before_other);
    for k in 1..5 {
        assert_eq!(caller.hand.0[k], hand.0[k]);
    }
    assert!(cards.contains(&caller.hand.0[0]));
    assert_eq!(drop.sound_asset(), "snd/card_dismiss.ogg");

    // a card that the hand does not hold: nothing is drawn, and no deck is needed
    let absent = ActionTaken::DropCard { card: Card::default() };
    let before = caller.clone();
    assert!(perform_action(&mut caller, &mut other, &absent, &[]));
    assert_eq!(caller, before);
    assert_eq!(other, before_other);
}

#[test]
fn a_match_of_any_number_of_players_is_over_when_one_tower_decides() {
    let standing = Player::new();
    let fallen = Player { tower_hp: 0, ..Player::new() };
    let full = Player { tower_hp: 50, ..Player::new() };
    let almost = Player { tower_hp: 49, ..Player::new() };
    assert!(!game_ended_condition(&[]));
    assert!(!game_ended_condition(&[standing]));
    assert!(!game_ended_condition(&[standing, almost, standing]));
    assert!(game_ended_condition(&[fallen]));
    assert!(game_ended_condition(&[standing, almost, fallen]));
    assert!(game_ended_condition(&[full, standing]));
    assert!(game_ended_condition(&[standing, standing, standing, full]));
}

#[test]
fn a_finished_board_and_a_waiting_board_need_no_deck() {
    let cards = vec![strike()];
    let mut board = Board::new_board(&cards);
    board.first.hand.0.pop();
    assert!(board.can_update());
    assert_eq!(board.update(&[]), BoardEvent::AwaitingMove);
    board.game_ended = true;
    assert!(board.can_update());
    assert_eq!(board.update(&[]), BoardEvent::Over);
    board.game_ended = false;
    board.first.human = false;
    assert!(!board.can_update());
    let dear_only = vec![dear()];
    let mut refused = Board::new_board(&dear_only);
    let before = refused.clone();
    assert_eq!(refused.try_use_card(0, false, &[]), MoveOutcome::Refused);
    assert_eq!(refused, before);
}

#[test]
fn the_actor_that_waits_least_acts_next() {
    assert_eq!(search_for_actors(&[ActorTurn(0), ActorTurn(1)]), Some(0));
    assert_eq!(search_for_actors(&[ActorTurn(2), ActorTurn(1)]), Some(1));
    assert_eq!(search_for_actors(&[ActorTurn(4), ActorTurn(3), ActorTurn(3)]), Some(1));
    assert_eq!(search_for_actors(&[]), None);
    assert_eq!(search_for_actors(&[ActorTurn(usize::MAX), ActorTurn(usize::MAX)]), None);
    assert_eq!(search_for_actors(&[ActorTurn(usize::MAX), ActorTurn(usize::MAX - 1)]), Some(1));
}

#[test]
fn two_actors_take_turns() {
    let mut actors = [ActorTurn(0), ActorTurn(1)];
    let mut order = Vec::new();
    for _ in 0..6 {
        let next = search_for_actors(&actors).unwrap();
        order.push(next);
        assert!(actors[next].can_remove_token());
        actors[next].remove_token();
    }
    assert_eq!(order, vec![0, 1, 0, 1, 0, 1]);
    assert_eq!(actors, [ActorTurn(6), ActorTurn(7)]);
    assert!(!ActorTurn(usize::MAX - 1).can_remove_token());
    assert!(ActorTurn(usize::MAX - 2).can_remove_token());
    assert_eq!(ActorTurn::default(), ActorTurn(0));
}

#[test]
fn the_steps_of_a_turn_follow_each_other() {
    let step = GameTurnSteps::default();
    assert_eq!(step, GameTurnSteps::SearchForAgents);
    assert_eq!(step.next(false), GameTurnSteps::SearchForAgents);
    assert_eq!(step.next(true), GameTurnSteps::ActionSelection);
    assert_eq!(GameTurnSteps::ActionSelection.next(false), GameTurnSteps::ActionSelection);
    assert_eq!(GameTurnSteps::ActionSelection.next(true), GameTurnSteps::PerformAction);
    assert_eq!(GameTurnSteps::PerformAction.next(true), GameTurnSteps::SearchForAgents);
    assert_eq!(GameState::default(), GameState::AssetsLoading);
}
