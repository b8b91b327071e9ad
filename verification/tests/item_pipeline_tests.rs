use card_battle_core::cards::KindEnum;
use card_battle_core::catalog::CardCatalog;
use card_battle_core::effect::EffectSummary;
use card_battle_core::game::GameState;
use card_battle_core::item_controller::{
    AddFieldEnergyWithFieldUnitHealthPointRequestForm, TargetDeathItemRequestForm,
};
use card_battle_core::notice::NoticeEvent;
use card_battle_core::session::AccountSessionStore;
use card_battle_core::state::{AccountState, AttachedEnergy, FieldUnit};

const ITEM_CARD: i32 = 58;
const COMMON_UNIT_CARD: i32 = 31;
const MYTHICAL_UNIT_CARD: i32 = 93;

fn make_unit(card_id: i32, health: i32) -> FieldUnit {
    FieldUnit { card_id, health, attached_energy: AttachedEnergy::none() }
}

/// A match where account 1 holds item card 58 (fallback damage 2, divisor 1)
/// and account 2 fields a unit of `unit_card` with `health` at index 2.
fn make_match(unit_card: i32, health: i32, round: i32) -> GameState {
    let mut catalog = CardCatalog::new();
    catalog.register_card_kind(ITEM_CARD, KindEnum::Item);
    catalog.register_card_grade(ITEM_CARD, 2);
    catalog.register_item_effect(ITEM_CARD, EffectSummary::new(2, 1));
    catalog.register_card_kind(COMMON_UNIT_CARD, KindEnum::Unit);
    catalog.register_card_grade(COMMON_UNIT_CARD, 1);
    catalog.register_card_kind(MYTHICAL_UNIT_CARD, KindEnum::Unit);
    catalog.register_card_grade(MYTHICAL_UNIT_CARD, 5);
    let mut sessions = AccountSessionStore::new();
    sessions.register_session("token-one".to_string(), 1);
    sessions.register_session("token-two".to_string(), 2);
    let player_one = AccountState {
        account_id: 1,
        hand: vec![ITEM_CARD],
        field: vec![],
        tomb: vec![],
        field_energy: 0,
    };
    let player_two = AccountState {
        account_id: 2,
        hand: vec![],
        field: vec![None, None, Some(make_unit(unit_card, health))],
        tomb: vec![],
        field_energy: 0,
    };
    GameState::new(catalog, sessions, player_one, player_two, round)
}

fn death_request(session: &str, card: &str, index: &str) -> TargetDeathItemRequestForm {
    TargetDeathItemRequestForm::new(session.to_string(), card.to_string(), index.to_string())
}

#[test]
fn common_unit_is_eliminated_and_card_moves_to_tomb() {
    let mut game = make_match(COMMON_UNIT_CARD, 5, 1);
    let response = game.request_to_use_target_death_item(&death_request("token-one", "58", "2"));
    assert!(response.is_success);
    assert!(game.player_two.field[2].is_none());
    assert!(game.player_one.hand.is_empty());
    assert_eq!(game.player_one.tomb, vec![ITEM_CARD]);
    assert_eq!(game.channel.sent.len(), 1);
    assert!(matches!(
        game.channel.sent[0],
        NoticeEvent::UseItemInstantDeath {
            opponent_unique_id: 2,
            used_hand_card_id: ITEM_CARD,
            dead_unit_index: 2,
        }
    ));
}

#[test]
fn elimination_ignores_remaining_health() {
    let mut game = make_match(COMMON_UNIT_CARD, 9999, 1);
    let response = game.request_to_use_target_death_item(&death_request("token-one", "58", "2"));
    assert!(response.is_success);
    assert!(game.player_two.field[2].is_none());
}

#[test]
fn mythical_unit_survives_with_alternatives_damage() {
    let mut game = make_match(MYTHICAL_UNIT_CARD, 5, 1);
    let response = game.request_to_use_target_death_item(&death_request("token-one", "58", "2"));
    assert!(response.is_success);
    let unit = game.player_two.field[2].expect("unit must be retained");
    assert_eq!(unit.card_id, MYTHICAL_UNIT_CARD);
    assert_eq!(unit.health, 3);
    assert_eq!(game.player_one.tomb, vec![ITEM_CARD]);
    assert_eq!(game.channel.sent.len(), 1);
    assert!(matches!(
        game.channel.sent[0],
        NoticeEvent::UseItemInstantDeathAlternatives {
            opponent_unique_id: 2,
            used_hand_card_id: ITEM_CARD,
            target_unit_index: 2,
            alternatives_damage: 2,
        }
    ));
}

#[test]
fn invalid_session_declines_without_touching_any_store() {
    let mut game = make_match(COMMON_UNIT_CARD, 5, 1);
    let response = game.request_to_use_target_death_item(&death_request("forged", "58", "2"));
    assert!(!response.is_success);
    assert_eq!(game.player_one.hand, vec![ITEM_CARD]);
    assert!(game.player_one.tomb.is_empty());
    assert!(game.player_two.field[2].is_some());
    assert_eq!(game.channel.sent.len(), 0);
}

#[test]
fn card_not_in_hand_declines_with_zero_mutation() {
    let mut game = make_match(COMMON_UNIT_CARD, 5, 1);
    game.player_one.hand.clear();
    let response = game.request_to_use_target_death_item(&death_request("token-one", "58", "2"));
    assert!(!response.is_success);
    assert!(game.player_one.tomb.is_empty());
    assert!(game.player_two.field[2].is_some());
    assert_eq!(game.channel.sent.len(), 0);
}

#[test]
fn malformed_card_id_field_declines_cleanly() {
    let mut game = make_match(COMMON_UNIT_CARD, 5, 1);
    let response = game.request_to_use_target_death_item(&death_request("token-one", "fifty", "2"));
    assert!(!response.is_success);
    assert_eq!(game.player_one.hand, vec![ITEM_CARD]);
    assert!(game.player_two.field[2].is_some());
    assert_eq!(game.channel.sent.len(), 0);
}

#[test]
fn double_elimination_of_removed_unit_declines_both_times() {
    let mut game = make_match(COMMON_UNIT_CARD, 5, 1);
    game.player_one.hand = vec![ITEM_CARD, ITEM_CARD, ITEM_CARD];
    let first = game.request_to_use_target_death_item(&death_request("token-one", "58", "2"));
    assert!(first.is_success);
    assert!(game.player_two.field[2].is_none());
    let second = game.request_to_use_target_death_item(&death_request("token-one", "58", "2"));
    let third = game.request_to_use_target_death_item(&death_request("token-one", "58", "2"));
    assert!(!second.is_success);
    assert!(!third.is_success);
    assert!(game.player_two.field[2].is_none());
    // the declined attempts were stopped before any mutation
    assert_eq!(game.player_one.hand, vec![ITEM_CARD, ITEM_CARD]);
    assert_eq!(game.player_one.tomb, vec![ITEM_CARD]);
    assert_eq!(game.channel.sent.len(), 1);
}

#[test]
fn mythical_item_card_gated_until_round_four() {
    for (round, expected) in [(1, false), (3, false), (4, true), (5, true)] {
        let mut game = make_match(COMMON_UNIT_CARD, 5, round);
        // regrade the acting item card to Mythical
        game.catalog.register_card_grade(ITEM_CARD, 5);
        let response =
            game.request_to_use_target_death_item(&death_request("token-one", "58", "2"));
        assert_eq!(response.is_success, expected, "round {}", round);
    }
}

#[test]
fn notification_failure_reports_decline_but_mutations_stand() {
    let mut game = make_match(COMMON_UNIT_CARD, 5, 1);
    game.channel.accepting = false;
    let response = game.request_to_use_target_death_item(&death_request("token-one", "58", "2"));
    assert!(!response.is_success);
    // the inherited partial-failure hazard: elimination and the hand-to-tomb
    // move were already committed when delivery failed
    assert!(game.player_two.field[2].is_none());
    assert_eq!(game.player_one.tomb, vec![ITEM_CARD]);
    assert_eq!(game.channel.sent.len(), 0);
}

fn energy_request(session: &str, card: &str, index: &str) -> AddFieldEnergyWithFieldUnitHealthPointRequestForm {
    AddFieldEnergyWithFieldUnitHealthPointRequestForm::new(
        session.to_string(),
        card.to_string(),
        index.to_string(),
    )
}

/// A match where account 1 holds item card 58 (divisor 2) and fields its
/// own unit with `health` at index 0.
fn make_energy_match(health: i32) -> GameState {
    let mut game = make_match(COMMON_UNIT_CARD, 5, 1);
    game.catalog.register_item_effect(ITEM_CARD, EffectSummary::new(2, 2));
    game.player_one.field = vec![Some(make_unit(COMMON_UNIT_CARD, health))];
    game
}

#[test]
fn health_converts_to_field_energy_and_card_moves_to_tomb() {
    let mut game = make_energy_match(8);
    let response = game
        .request_to_use_add_field_energy_with_field_unit_health_point(&energy_request(
            "token-one",
            "58",
            "0",
        ));
    assert!(response.is_success);
    assert_eq!(game.player_one.field_energy, 4);
    assert!(game.player_one.hand.is_empty());
    assert_eq!(game.player_one.tomb, vec![ITEM_CARD]);
    assert_eq!(game.channel.sent.len(), 1);
    assert!(matches!(
        game.channel.sent[0],
        NoticeEvent::UseItemFieldEnergyIncrease {
            opponent_unique_id: 2,
            used_hand_card_id: ITEM_CARD,
            amount: 4,
        }
    ));
}

#[test]
fn energy_conversion_against_absent_unit_declines_without_mutation() {
    let mut game = make_energy_match(8);
    let response = game
        .request_to_use_add_field_energy_with_field_unit_health_point(&energy_request(
            "token-one",
            "58",
            "7",
        ));
    assert!(!response.is_success);
    assert_eq!(game.player_one.field_energy, 0);
    assert_eq!(game.player_one.hand, vec![ITEM_CARD]);
    assert!(game.player_one.tomb.is_empty());
    assert_eq!(game.channel.sent.len(), 0);
}

#[test]
fn energy_conversion_notification_failure_keeps_card_in_hand() {
    let mut game = make_energy_match(8);
    game.channel.accepting = false;
    let response = game
        .request_to_use_add_field_energy_with_field_unit_health_point(&energy_request(
            "token-one",
            "58",
            "0",
        ));
    assert!(!response.is_success);
    // the energy commit precedes delivery; only a delivered action spends
    // the card
    assert_eq!(game.player_one.field_energy, 4);
    assert_eq!(game.player_one.hand, vec![ITEM_CARD]);
    assert!(game.player_one.tomb.is_empty());
}

#[test]
fn energy_conversion_invalid_session_touches_nothing() {
    let mut game = make_energy_match(8);
    let response = game
        .request_to_use_add_field_energy_with_field_unit_health_point(&energy_request(
            "forged",
            "58",
            "0",
        ));
    assert!(!response.is_success);
    assert_eq!(game.player_one.field_energy, 0);
    assert_eq!(game.player_one.hand, vec![ITEM_CARD]);
    assert_eq!(game.channel.sent.len(), 0);
}

#[test]
fn wrong_kind_card_declines_elimination() {
    let mut game = make_match(COMMON_UNIT_CARD, 5, 1);
    // a unit card in hand cannot drive the item endpoint
    game.player_one.hand = vec![COMMON_UNIT_CARD];
    let response = game.request_to_use_target_death_item(&death_request("token-one", "31", "2"));
    assert!(!response.is_success);
    assert_eq!(game.player_one.hand, vec![COMMON_UNIT_CARD]);
    assert!(game.player_two.field[2].is_some());
}

#[test]
fn item_without_effect_entry_declines_before_mutation() {
    let mut game = make_match(COMMON_UNIT_CARD, 5, 1);
    const BLANK_ITEM: i32 = 77;
    game.catalog.register_card_kind(BLANK_ITEM, KindEnum::Item);
    game.player_one.hand = vec![BLANK_ITEM];
    let response = game.request_to_use_target_death_item(&death_request("token-one", "77", "2"));
    assert!(!response.is_success);
    assert_eq!(game.player_one.hand, vec![BLANK_ITEM]);
    assert!(game.player_two.field[2].is_some());
    assert_eq!(game.channel.sent.len(), 0);
}

#[test]
fn energy_conversion_declines_when_the_pool_cannot_take_the_amount() {
    let mut game = make_energy_match(8);
    game.player_one.field_energy = i32::MAX;
    let response = game
        .request_to_use_add_field_energy_with_field_unit_health_point(&energy_request(
            "token-one",
            "58",
            "0",
        ));
    assert!(!response.is_success);
    assert_eq!(game.player_one.field_energy, i32::MAX);
    assert_eq!(game.player_one.hand, vec![ITEM_CARD]);
    assert_eq!(game.channel.sent.len(), 0);
}

#[test]
fn malformed_target_index_declines_cleanly() {
    let mut game = make_match(COMMON_UNIT_CARD, 5, 1);
    let response = game.request_to_use_target_death_item(&death_request("token-one", "58", "two"));
    assert!(!response.is_success);
    assert_eq!(game.player_one.hand, vec![ITEM_CARD]);
    assert!(game.player_two.field[2].is_some());
}

#[test]
fn mythical_item_card_gated_on_energy_archetype_too() {
    for (round, expected) in [(3, false), (4, true)] {
        let mut game = make_energy_match(8);
        game.round = round;
        game.catalog.register_card_grade(ITEM_CARD, 5);
        let response = game
            .request_to_use_add_field_energy_with_field_unit_health_point(&energy_request(
                "token-one",
                "58",
                "0",
            ));
        assert_eq!(response.is_success, expected, "round {}", round);
        if !expected {
            assert_eq!(game.player_one.field_energy, 0);
            assert_eq!(game.player_one.hand, vec![ITEM_CARD]);
        }
    }
}
