use slavic_castles::board::ActionTaken;
use slavic_castles::card::Card;
use slavic_castles::consts::AVATARS_AMOUNT;
use slavic_castles::display::{
    clock_text, end_game, moves_text, result_text, split_time_mm_ss, ActionToPerform, ButtonLook,
    ButtonState, CardDropZone, CardTint, Console, PlayerInfo, PlayerTextInterface, PlayerUiValue,
    ResourceInfo, StartGameState, StartRequest, UpdateResult, ValueColor, WasteCards, CONSOLE_LINES,
};
use slavic_castles::player::Player;
use slavic_castles::profile::{
    get_avatar_id, get_user_name, next_avatar, opponent_avatar, previous_avatar,
    random_opponent_avatar, NamesAsset, PlayerDetailsInfo, PlayerInformation, Profile,
    ProfileProvider,
};
use slavic_castles::resource::{CastleResource, ResourceType};
use slavic_castles::stats::Stats;

#[test]
fn avatars_go_round() {
    assert_eq!(AVATARS_AMOUNT, 13);
    assert_eq!(next_avatar(5), 6);
    assert_eq!(next_avatar(12), 13);
    assert_eq!(next_avatar(13), 1);
    assert_eq!(next_avatar(i32::MAX), 1);
    assert_eq!(previous_avatar(5), 4);
    assert_eq!(previous_avatar(2), 1);
    assert_eq!(previous_avatar(1), 13);
    assert_eq!(previous_avatar(i32::MIN), 13);
}

#[test]
fn the_opponent_gets_one_of_all_avatars_but_the_last() {
    assert_eq!(opponent_avatar(0), 1);
    assert_eq!(opponent_avatar(11), 12);
    assert_eq!(opponent_avatar(12), 1);
    assert_eq!(opponent_avatar(-13), 2);
    assert_eq!(opponent_avatar(i32::MAX), 1 + 2147483647 % 12);
    assert_eq!(opponent_avatar(i32::MIN), 9);
    let mut seen = std::collections::BTreeSet::new();
    for _ in 0..300 {
        let id = random_opponent_avatar();
        assert!((1..AVATARS_AMOUNT).contains(&id));
        seen.insert(id);
    }
    assert!(seen.len() > 1);
}

struct Shelf(Option<Profile>);

impl ProfileProvider for Shelf {
    fn get_profile(&self) -> Option<Profile> {
        self.0.clone()
    }
}

#[test]
fn a_profile_names_its_avatar() {
    let profile = Profile { avatar_id: 7, name: String::from("Dobrawa") };
    assert_eq!(profile.get_avatar_path(), "avatars/7.png");
    assert_eq!(Profile::format_avatar_path(13), "avatars/13.png");
    assert_eq!(Profile::default(), Profile { avatar_id: 1, name: String::from("Wojmir") });
    assert_eq!(get_avatar_id(Some(&profile)), 7);
    assert_eq!(get_user_name(Some(&profile)), "Dobrawa");
    assert_eq!(get_user_name(None), "Wojmir");
    let mut seen = std::collections::BTreeSet::new();
    for _ in 0..300 {
        let id = get_avatar_id(None);
        assert!((1..AVATARS_AMOUNT).contains(&id));
        seen.insert(id);
    }
    assert!(seen.len() > 1);
    assert!(Shelf(Some(profile)).has_profile());
    assert!(!Shelf(None).has_profile());
}

#[test]
fn names_are_chosen_from_the_list() {
    let names = NamesAsset(vec![String::from("Mieszko"), String::from("Bolko"), String::from("Lech")]);
    assert_eq!(names.name_at(0), "Mieszko");
    assert_eq!(names.name_at(4), "Bolko");
    assert_eq!(names.name_at(usize::MAX), names.0[usize::MAX % 3]);
    let mut seen = std::collections::BTreeSet::new();
    for _ in 0..200 {
        let name = names.get_random();
        assert!(names.0.contains(&name));
        seen.insert(name);
    }
    assert!(seen.len() > 1);
    let information = PlayerInformation {
        name: String::from("Lech"),
        avatar_id: 4,
        ..PlayerInformation::default()
    };
    let details = PlayerDetailsInfo::from(&information);
    assert_eq!(details, PlayerDetailsInfo { name: String::from("Lech"), avatar_id: 4 });
    assert_eq!(details.avatar_path(), "avatars/4.png");
    assert_eq!(PlayerInformation::default().start_stats, Player::new());
}

#[test]
fn a_disabled_button_stays_disabled() {
    let mut button = ButtonState::new(true);
    assert_eq!(button, ButtonState::Normal);
    button.set_hovered(true);
    assert!(button.is_hovered());
    button.set_hovered(false);
    assert_eq!(button, ButtonState::Normal);
    let mut disabled = ButtonState::new(false);
    disabled.set_hovered(true);
    assert_eq!(disabled, ButtonState::Disabled);
    assert!(!disabled.is_hovered());
    let mut pressed = ButtonState::Pressed;
    pressed.set_hovered(false);
    assert_eq!(pressed, ButtonState::Normal);
}

#[test]
fn the_start_screen_asks_for_a_match() {
    let mut screen = StartGameState::Active;
    assert!(screen.is_active() && !screen.is_requesting_change());
    screen.mouse_button(false, true, true, false);
    assert_eq!(screen, StartGameState::Active);
    screen.mouse_button(true, false, true, false);
    assert_eq!(screen, StartGameState::Active);
    screen.mouse_button(true, true, false, false);
    assert_eq!(screen, StartGameState::Active);
    screen.mouse_button(true, true, true, false);
    assert_eq!(screen, StartGameState::RequestNewGame);
    assert!(screen.is_requesting_change());
    let mut other = StartGameState::Active;
    other.mouse_button(true, true, false, true);
    assert_eq!(other, StartGameState::RequestNewGame);
    assert!(StartGameState::RequestGameContinue.is_requesting_change());
    other.disable();
    assert!(!other.is_active());
}

#[test]
fn a_shown_number_tells_how_it_moved() {
    let mut shown = PlayerUiValue::default();
    assert_eq!(shown.update(0), UpdateResult::NoChange);
    assert_eq!(shown.update(4), UpdateResult::BiggerValue);
    assert_eq!(shown.0, 4);
    assert_eq!(shown.update(4), UpdateResult::NoChange);
    assert_eq!(shown.update(-1), UpdateResult::SmallerValue);
    assert_eq!(shown.0, -1);
    assert_eq!(UpdateResult::default(), UpdateResult::NoChange);
}

#[test]
fn a_field_shows_its_number_of_the_player() {
    let mut player = Player::new();
    player.tower_hp = 31;
    player.walls_hp = 9;
    player.resources.magic = CastleResource { amount: 12, production: 4 };
    assert_eq!(PlayerTextInterface::Health.value_of(&player), 31);
    assert_eq!(PlayerTextInterface::Shield.value_of(&player), 9);
    assert_eq!(PlayerTextInterface::ResourceAmount(ResourceType::Magic).value_of(&player), 12);
    assert_eq!(PlayerTextInterface::ResourceProduction(ResourceType::Magic).value_of(&player), 4);
    assert_eq!(PlayerTextInterface::ResourceAmount(ResourceType::Tools).value_of(&player), 3);
    assert_eq!(PlayerTextInterface::ResourceProduction(ResourceType::Soldiers).value_of(&player), 1);
    assert_eq!(PlayerTextInterface::ResourceProduction(ResourceType::Magic).text(4), "+4");
    assert_eq!(PlayerTextInterface::ResourceProduction(ResourceType::Magic).text(0), "0");
    assert_eq!(PlayerTextInterface::ResourceAmount(ResourceType::Magic).text(4), "4");
    assert_eq!(PlayerTextInterface::Health.text(-3), "-3");
    assert_eq!(PlayerTextInterface::default(), PlayerTextInterface::Shield);

    let mut shown = PlayerUiValue(0);
    let field = PlayerTextInterface::ResourceProduction(ResourceType::Magic);
    assert_eq!(field.update(&mut shown, &player), (UpdateResult::BiggerValue, Some(String::from("+4"))));
    assert_eq!(shown.0, 4);
    assert_eq!(field.update(&mut shown, &player), (UpdateResult::NoChange, None));
    player.resources.magic.production = 2;
    assert_eq!(field.update(&mut shown, &player), (UpdateResult::SmallerValue, Some(String::from("+2"))));
}

#[test]
fn a_dragged_card_knows_what_awaits_it() {
    assert_eq!(CardDropZone::Use.drag_over(true), ActionToPerform::Use);
    assert_eq!(CardDropZone::Use.drag_over(false), ActionToPerform::Nothing);
    assert_eq!(CardDropZone::Discard.drag_over(true), ActionToPerform::Discard);
    assert_eq!(CardDropZone::Discard.drag_over(false), ActionToPerform::Discard);
    assert_eq!(CardDropZone::default(), CardDropZone::Discard);
    assert_eq!(ActionToPerform::default(), ActionToPerform::Nothing);

    assert_eq!(ActionToPerform::Use.card_color(true), CardTint::Amber);
    assert_eq!(ActionToPerform::Use.card_color(false), CardTint::Dimmed);
    assert_eq!(ActionToPerform::Discard.card_color(true), CardTint::Red);
    assert_eq!(ActionToPerform::Discard.card_color(false), CardTint::Red);
    assert_eq!(ActionToPerform::Nothing.card_color(true), CardTint::White);
    assert_eq!(ActionToPerform::Nothing.card_color(false), CardTint::Dimmed);

    let card = Card { id: 3, ..Card::default() };
    match ActionToPerform::Use.end_drag(&card) {
        Some(ActionTaken::UseCard { card: used }) => assert_eq!(used, card),
        other => panic!("unexpected {:?}", other),
    }
    match ActionToPerform::Discard.end_drag(&card) {
        Some(ActionTaken::DropCard { card: dropped }) => assert_eq!(dropped, card),
        other => panic!("unexpected {:?}", other),
    }
    assert!(ActionToPerform::Nothing.end_drag(&card).is_none());
}

#[test]
fn tower_and_walls_change_colour_as_they_move() {
    let start = PlayerInfo {
        tower_hp: 20,
        walls_hp: 10,
        health_color: ValueColor::White,
        shield_color: ValueColor::White,
        active: false,
    };
    let mut info = start;
    assert!(!info.update_info(20, 10, true));
    assert_eq!((info.health_color, info.shield_color), (ValueColor::White, ValueColor::White));
    assert!(info.active);

    let mut info = start;
    assert!(info.update_info(20, 4, false));
    assert_eq!((info.health_color, info.shield_color), (ValueColor::White, ValueColor::Red));
    assert_eq!((info.tower_hp, info.walls_hp), (20, 4));

    let mut info = start;
    assert!(!info.update_info(20, 14, false));
    assert_eq!((info.health_color, info.shield_color), (ValueColor::White, ValueColor::Green));

    let mut info = start;
    assert!(info.update_info(15, 10, false));
    assert_eq!((info.health_color, info.shield_color), (ValueColor::Red, ValueColor::Green));

    let mut info = start;
    assert!(!info.update_info(25, 10, false));
    assert_eq!((info.health_color, info.shield_color), (ValueColor::Green, ValueColor::Green));

    let mut info = start;
    assert!(info.update_info(15, 0, false));
    assert_eq!((info.health_color, info.shield_color), (ValueColor::Red, ValueColor::Red));

    info.game_restarted();
    assert_eq!((info.health_color, info.shield_color), (ValueColor::White, ValueColor::White));
    assert_eq!((info.tower_hp, info.walls_hp), (15, 0));
}

#[test]
fn every_supply_has_its_colour() {
    assert_eq!(ResourceType::Tools.base_color(), "#2a9efe");
    assert_eq!(ResourceType::Magic.base_color(), "#339820");
    assert_eq!(ResourceType::Soldiers.base_color(), "#bb332a");
}

#[test]
fn a_supply_shakes_when_it_falls_out_of_turn() {
    let mut info = ResourceInfo { amount: 5, production: 2 };
    assert!(info.update_values(&CastleResource { amount: 4, production: 2 }, false));
    assert_eq!(info, ResourceInfo { amount: 4, production: 2 });
    assert!(!info.update_values(&CastleResource { amount: 3, production: 2 }, true));
    assert!(info.update_values(&CastleResource { amount: 3, production: 1 }, false));
    assert!(!info.update_values(&CastleResource { amount: 9, production: 1 }, false));
    assert_eq!(info, ResourceInfo { amount: 9, production: 1 });
}

#[test]
fn the_two_cards_played_last_are_kept() {
    let card = |id: i32| Card { id, ..Card::default() };
    let mut waste = WasteCards::new();
    assert_eq!(waste.cards_played, 0);
    waste.card_used(&card(1));
    assert_eq!((waste.previous_card.clone(), waste.last_card.clone()), (Some(card(1)), None));
    waste.card_used(&card(2));
    assert_eq!((waste.previous_card.clone(), waste.last_card.clone()), (Some(card(1)), Some(card(2))));
    waste.card_used(&card(3));
    assert_eq!((waste.previous_card.clone(), waste.last_card.clone()), (Some(card(2)), Some(card(3))));
    waste.card_used(&card(4));
    assert_eq!((waste.previous_card.clone(), waste.last_card.clone()), (Some(card(3)), Some(card(4))));
    assert_eq!(waste.cards_played, 4);
    waste.game_ended();
    assert_eq!(waste.cards_played, 0);
    assert_eq!(waste.last_card, Some(card(4)));
}

#[test]
fn the_message_board_keeps_the_latest_messages() {
    let mut console = Console::new();
    assert!(console.visible);
    assert_eq!(console.text(), "Info:\n");
    console.message("one");
    console.message("two");
    assert_eq!(console.text(), "Info:\none\ntwo\n");
    for i in 3..=11 {
        console.message(&format!("no {}", i));
    }
    assert_eq!(console.infos.len(), CONSOLE_LINES);
    assert_eq!(console.infos.front().unwrap(), "two");
    assert_eq!(console.infos.back().unwrap(), "no 11");
    console.message("last");
    assert_eq!(console.infos.len(), 10);
    assert_eq!(console.infos.front().unwrap(), "no 3");
    console.switch_visibility();
    assert!(!console.visible);
    console.clear();
    assert_eq!(console.text(), "Info:\n");
    assert!(!console.visible);
}

#[test]
fn the_end_of_a_match_is_told() {
    assert_eq!(result_text(true), "You win! Press to restart!");
    assert_eq!(result_text(false), "You lose! Press to restart!");
    let mut player = Player::new();
    assert_eq!(end_game(&player), (true, String::from("snd/game_won.ogg")));
    player.tower_hp = 0;
    assert_eq!(end_game(&player), (false, String::from("snd/game_lost.ogg")));
    player.tower_hp = 50;
    assert_eq!(end_game(&player), (true, String::from("snd/game_won.ogg")));
}

#[test]
fn a_button_is_drawn_by_its_state() {
    assert_eq!(ButtonState::Normal.look(), ButtonLook::Base);
    assert_eq!(ButtonState::Pressed.look(), ButtonLook::Base);
    assert_eq!(ButtonState::Hovered.look(), ButtonLook::Hover);
    assert_eq!(ButtonState::Disabled.look(), ButtonLook::Disabled);
}

#[test]
fn a_request_of_the_start_screen_is_taken_once() {
    let mut screen = StartGameState::RequestNewGame;
    assert_eq!(screen.take_request(), Some(StartRequest::NewGame));
    assert_eq!(screen, StartGameState::Inactive);
    assert_eq!(screen.take_request(), None);
    let mut screen = StartGameState::RequestGameContinue;
    assert_eq!(screen.take_request(), Some(StartRequest::ContinueGame));
    assert_eq!(screen, StartGameState::Inactive);
    let mut screen = StartGameState::Active;
    assert_eq!(screen.take_request(), None);
    assert_eq!(screen, StartGameState::Active);
}

#[test]
fn the_clock_shows_two_digits() {
    assert_eq!(clock_text(0, 0), "00:00");
    assert_eq!(clock_text(2, 5), "02:05");
    assert_eq!(clock_text(12, 59), "12:59");
    assert_eq!(clock_text(123, 9), "123:09");
    assert_eq!(clock_text(-2, -5), "-2:-5");
    assert_eq!(clock_text(-12, -35), format!("{:02}:{:02}", -12, -35));
    assert_eq!(moves_text(0), "Moves: 0");
    assert_eq!(moves_text(17), "Moves: 17");
}

#[test]
fn time_is_split_into_minutes_and_seconds() {
    assert_eq!(split_time_mm_ss(0), (0, 0));
    assert_eq!(split_time_mm_ss(59), (0, 59));
    assert_eq!(split_time_mm_ss(125), (2, 5));
    assert_eq!(split_time_mm_ss(-125), (-2, -5));
    assert_eq!(split_time_mm_ss(i32::MAX), (i32::MAX / 60, i32::MAX % 60));
    assert_eq!(split_time_mm_ss(i32::MIN), (i32::MIN / 60, i32::MIN % 60));
}

#[test]
fn matches_are_tallied() {
    let mut stats = Stats::new();
    assert!(stats.is_well_formed());
    stats.game_started();
    stats.game_started();
    assert_eq!(stats.started_games, 2);
    assert!(stats.can_end_game(true, 10));
    stats.game_ended(true, 10);
    assert_eq!((stats.won_games, stats.losed_games, stats.average_moves), (1, 0, 10));
    stats.game_ended(false, 20);
    assert_eq!((stats.won_games, stats.losed_games, stats.average_moves), (1, 1, 15));
    stats.game_ended(true, 4);
    assert_eq!((stats.won_games, stats.losed_games, stats.average_moves), (2, 1, 6));
    assert_eq!(stats.ended_games(), 3);
    stats.game_ended(false, -10);
    assert_eq!(stats.average_moves, -1);
    let full = Stats { started_games: 1, won_games: i32::MAX, losed_games: 0, average_moves: 0 };
    assert!(!full.can_end_game(true, 1));
    assert!(!full.can_end_game(false, 1));
    let negative = Stats { started_games: 1, won_games: -1, losed_games: 0, average_moves: 0 };
    assert!(!negative.can_end_game(true, 1));
    assert!(!negative.is_well_formed());
}
