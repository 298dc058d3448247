use slavic_castles::board::PlayerNumber;
use slavic_castles::card::{Card, CardEffect, EffectType};
use slavic_castles::player::Player;
use slavic_castles::player_resources::PlayerResources;
use slavic_castles::resource::{CastleResource, Resource, ResourceType};
use slavic_castles::text::decimal_string;

fn says(affects_user: bool, effect_type: EffectType) -> String {
    CardEffect { affects_user, effect_type }.to_string()
}

#[test]
fn numbers_are_written_in_decimal() {
    assert_eq!(decimal_string(0), "0");
    assert_eq!(decimal_string(7), "7");
    assert_eq!(decimal_string(10), "10");
    assert_eq!(decimal_string(-1), "-1");
    assert_eq!(decimal_string(1234567890), "1234567890");
    assert_eq!(decimal_string(i32::MAX), "2147483647");
    assert_eq!(decimal_string(i32::MIN), "-2147483648");
    assert_eq!(decimal_string(-305), "-305");
}

#[test]
fn supplies_have_names() {
    assert_eq!(ResourceType::Tools.to_string(), "Tools");
    assert_eq!(ResourceType::Magic.to_string(), "Magic");
    assert_eq!(ResourceType::Soldiers.to_string(), "Soldiers");
    assert_eq!(ResourceType::Soldiers.as_str(), "Soldiers");
    assert_eq!(Resource::resource_name(&ResourceType::Magic), "Magic");
    assert_eq!(CastleResource { amount: 3, production: 1 }.to_string(), "3,(1)");
    assert_eq!(Resource::new().to_string(), "3,(1)");
}

#[test]
fn production_changes_in_words() {
    assert_eq!(
        says(true, EffectType::ProductionChange(ResourceType::Tools, 2)),
        "Increase prod of Tools by 2"
    );
    assert_eq!(
        says(false, EffectType::ProductionChange(ResourceType::Magic, -1)),
        "Decrease enemy prod of Magic by 1"
    );
    assert_eq!(
        says(true, EffectType::ProductionChange(ResourceType::Soldiers, 0)),
        "Decrease prod of Soldiers by 0"
    );
    assert_eq!(
        says(true, EffectType::ProductionChange(ResourceType::Soldiers, i32::MIN)),
        "Decrease prod of Soldiers by 2147483648"
    );
}

#[test]
fn damage_in_words() {
    assert_eq!(says(false, EffectType::Damage(5, false)), "Deliver 5 damage");
    assert_eq!(says(true, EffectType::Damage(3, true)), "Takes 3 damage(ignores shield)");
    assert_eq!(says(false, EffectType::Damage(-2, true)), "Deliver -2 damage(ignores shield)");
}

#[test]
fn stock_changes_in_words() {
    assert_eq!(says(true, EffectType::ResourceChange(ResourceType::Soldiers, 4)), "Gives 4 of Soldiers");
    assert_eq!(says(true, EffectType::ResourceChange(ResourceType::Soldiers, -4)), "Takes 4 of Soldiers");
    assert_eq!(
        says(false, EffectType::ResourceChange(ResourceType::Tools, -2)),
        "Takes 2 of Tools from enemy"
    );
    assert_eq!(
        says(false, EffectType::ResourceChange(ResourceType::Tools, 2)),
        "Gives 2 of Tools to enemy"
    );
}

#[test]
fn growth_in_words() {
    assert_eq!(says(true, EffectType::TowerGrowth(5)), "+5 Health");
    assert_eq!(says(false, EffectType::TowerGrowth(-5)), "--5 Health to enemy");
    assert_eq!(says(true, EffectType::TowerGrowth(0)), "-0 Health");
    assert_eq!(says(true, EffectType::WallsGrowth(3)), "+3 Shield");
    assert_eq!(says(false, EffectType::WallsGrowth(3)), "+3 Shield to enemy");
    assert_eq!(says(true, EffectType::Nothing), "");
    assert_eq!(says(false, EffectType::Nothing), "");
}

#[test]
fn a_card_in_words() {
    let card = Card {
        name: String::from("raid"),
        id: 12,
        cost_amount: 3,
        cost_resource: ResourceType::Soldiers,
        effects: vec![
            CardEffect { affects_user: false, effect_type: EffectType::Damage(5, false) },
            CardEffect { affects_user: true, effect_type: EffectType::WallsGrowth(2) },
        ],
    };
    assert_eq!(card.to_string(), "Cost(Soldiers): 3, Deliver 5 damage, +2 Shield");
    assert_eq!(card.description(), "Deliver 5 damage\n+2 Shield\n");
    assert_eq!(card.get_sound_asset(), "snd/card_soldiers.ogg");
    assert_eq!(card.image_path(), "cards/12.png");
    let free = Card { cost_amount: 0, cost_resource: ResourceType::Tools, ..card.clone() };
    assert_eq!(free.to_string(), ", Deliver 5 damage, +2 Shield");
    assert_eq!(free.get_sound_asset(), "snd/card_tools.ogg");
    let magic = Card { cost_resource: ResourceType::Magic, effects: vec![], ..card };
    assert_eq!(magic.to_string(), "Cost(Magic): 3");
    assert_eq!(magic.description(), "");
    assert_eq!(magic.get_sound_asset(), "snd/card_magic.ogg");
    assert_eq!(Card::default().to_string(), "");
}

#[test]
fn a_player_in_words() {
    assert_eq!(PlayerResources::default().print(), "Tools: 3,(1)\nMagic: 3,(1)\nSoldiers: 3,(1)");
    let mut player = Player::new();
    player.resources.magic = CastleResource { amount: 12, production: 4 };
    assert_eq!(
        player.to_string(),
        "Player: Life: 15+5, Tools: 3,(1), Magic: 12,(4), Soldiers: 3,(1)"
    );
    assert_eq!(PlayerNumber::First.to_string(), "First");
    assert_eq!(PlayerNumber::Second.to_string(), "Second");
}
