use slavic_castles::card::{Card, CardEffect, EffectKind, EffectType};
use slavic_castles::catalog::{repeated_production_changes, validate, CatalogError};
use slavic_castles::resource::ResourceType;

fn card(cost_amount: i32, effects: Vec<CardEffect>) -> Card {
    Card { name: String::from("test"), id: 1, cost_amount, cost_resource: ResourceType::Tools, effects }
}

fn production(affects_user: bool, resource: ResourceType, amount: i32) -> CardEffect {
    CardEffect { affects_user, effect_type: EffectType::ProductionChange(resource, amount) }
}

fn growth(amount: i32) -> CardEffect {
    CardEffect { affects_user: true, effect_type: EffectType::TowerGrowth(amount) }
}

#[test]
fn an_empty_catalog_is_refused() {
    assert_eq!(validate(&[]), Err(CatalogError::Empty));
}

#[test]
fn a_catalog_of_well_formed_cards_is_accepted() {
    let cards = vec![card(0, vec![]), card(3, vec![growth(4)]), card(i32::MAX, vec![growth(i32::MIN)])];
    assert_eq!(validate(&cards), Ok(()));
}

#[test]
fn the_first_malformed_card_is_reported() {
    let cards = vec![
        card(1, vec![growth(1)]),
        card(2, vec![growth(i32::MAX), growth(i32::MAX)]),
        card(-1, vec![]),
    ];
    assert_eq!(validate(&cards), Err(CatalogError::TotalsOutOfRange { index: 1 }));
    let cards = vec![card(1, vec![growth(1)]), card(-1, vec![]), card(2, vec![growth(i32::MAX), growth(1)])];
    assert_eq!(validate(&cards), Err(CatalogError::NegativeCost { index: 1 }));
    let both = vec![card(-5, vec![growth(i32::MIN), growth(-1)])];
    assert_eq!(validate(&both), Err(CatalogError::NegativeCost { index: 0 }));
}

#[test]
fn effects_are_counted_by_kind_and_side() {
    let c = card(
        0,
        vec![
            production(true, ResourceType::Tools, 1),
            production(false, ResourceType::Tools, 1),
            growth(2),
            production(true, ResourceType::Magic, 1),
            CardEffect::empty(),
        ],
    );
    assert_eq!(c.count(EffectKind::ProductionChange, true), 2);
    assert_eq!(c.count(EffectKind::ProductionChange, false), 1);
    assert_eq!(c.count(EffectKind::TowerGrowth, true), 1);
    assert_eq!(c.count(EffectKind::TowerGrowth, false), 0);
    assert_eq!(c.count(EffectKind::Damage, true), 0);
    assert!(c.repeats_production_change());
}

#[test]
fn cards_with_repeated_production_changes_are_flagged() {
    let single = card(0, vec![production(true, ResourceType::Tools, 1), production(false, ResourceType::Magic, 2)]);
    let twice_user = card(0, vec![production(true, ResourceType::Tools, 1), production(true, ResourceType::Magic, 2)]);
    let twice_opponent =
        card(0, vec![production(false, ResourceType::Tools, 1), production(false, ResourceType::Tools, 2)]);
    assert!(!single.repeats_production_change());
    assert!(twice_user.repeats_production_change());
    assert!(twice_opponent.repeats_production_change());
    let cards = vec![twice_user.clone(), single.clone(), card(0, vec![]), twice_opponent, single, twice_user];
    assert_eq!(repeated_production_changes(&cards), vec![0, 3, 5]);
    assert_eq!(repeated_production_changes(&cards[1..3]), Vec::<usize>::new());
    assert_eq!(repeated_production_changes(&[]), Vec::<usize>::new());
}
