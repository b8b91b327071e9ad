use card_battle_core::cards::{KindEnum, RaceEnumValue};
use card_battle_core::catalog::CardCatalog;
use card_battle_core::game::GameState;
use card_battle_core::hand_service::FRESH_UNIT_HEALTH;
use card_battle_core::notice::NoticeEvent;
use card_battle_core::session::AccountSessionStore;
use card_battle_core::state::{AccountState, AttachedEnergy, FieldUnit};

const UNIT_CARD: i32 = 31;
const ENERGY_CARD: i32 = 40;

/// A match where account 1 holds a unit card and an undead energy card.
fn make_match() -> GameState {
    let mut catalog = CardCatalog::new();
    catalog.register_card_kind(UNIT_CARD, KindEnum::Unit);
    catalog.register_card_grade(UNIT_CARD, 1);
    catalog.register_card_kind(ENERGY_CARD, KindEnum::Energy);
    catalog.register_card_race(ENERGY_CARD, RaceEnumValue::Undead);
    let mut sessions = AccountSessionStore::new();
    sessions.register_session("token-one".to_string(), 1);
    let player_one = AccountState {
        account_id: 1,
        hand: vec![UNIT_CARD, ENERGY_CARD],
        field: vec![],
        tomb: vec![],
        field_energy: 0,
    };
    let player_two = AccountState {
        account_id: 2,
        hand: vec![],
        field: vec![],
        tomb: vec![],
        field_energy: 0,
    };
    GameState::new(catalog, sessions, player_one, player_two, 1)
}

#[test]
fn unit_card_moves_from_hand_to_field() {
    let mut game = make_match();
    let success = game.use_specific_card(&"token-one".to_string(), &"31".to_string());
    assert!(success);
    assert_eq!(game.player_one.hand, vec![ENERGY_CARD]);
    assert_eq!(game.player_one.field.len(), 1);
    let unit = game.player_one.field[0].expect("unit must be fielded");
    assert_eq!(unit.card_id, UNIT_CARD);
    assert_eq!(unit.health, FRESH_UNIT_HEALTH);
    assert_eq!(unit.attached_energy, AttachedEnergy::none());
}

#[test]
fn unit_play_declines_for_card_not_in_hand() {
    let mut game = make_match();
    game.player_one.hand = vec![ENERGY_CARD];
    let success = game.use_specific_card(&"token-one".to_string(), &"31".to_string());
    assert!(!success);
    assert!(game.player_one.field.is_empty());
    assert_eq!(game.player_one.hand, vec![ENERGY_CARD]);
}

#[test]
fn unit_play_declines_for_wrong_kind() {
    let mut game = make_match();
    let success = game.use_specific_card(&"token-one".to_string(), &"40".to_string());
    assert!(!success);
    assert!(game.player_one.field.is_empty());
}

#[test]
fn unit_play_declines_for_invalid_session() {
    let mut game = make_match();
    let success = game.use_specific_card(&"forged".to_string(), &"31".to_string());
    assert!(!success);
    assert_eq!(game.player_one.hand, vec![UNIT_CARD, ENERGY_CARD]);
}

#[test]
fn energy_card_attaches_to_fielded_unit_and_leaves_hand() {
    let mut game = make_match();
    game.player_one.field = vec![Some(FieldUnit {
        card_id: UNIT_CARD,
        health: 6,
        attached_energy: AttachedEnergy::none(),
    })];
    let success = game.attach_energy_card_to_field_unit(
        &"token-one".to_string(),
        &"31".to_string(),
        &"40".to_string(),
    );
    assert!(success);
    assert_eq!(game.player_one.hand, vec![UNIT_CARD]);
    let unit = game.player_one.field[0].expect("unit stays");
    assert_eq!(unit.attached_energy.undead, 1);
    assert_eq!(unit.attached_energy.human, 0);
    assert_eq!(unit.health, 6);
}

#[test]
fn energy_attach_declines_without_a_fielded_unit() {
    let mut game = make_match();
    let success = game.attach_energy_card_to_field_unit(
        &"token-one".to_string(),
        &"31".to_string(),
        &"40".to_string(),
    );
    assert!(!success);
    assert_eq!(game.player_one.hand, vec![UNIT_CARD, ENERGY_CARD]);
}

#[test]
fn energy_attach_declines_for_unknown_race() {
    let mut game = make_match();
    game.catalog.register_card_race(ENERGY_CARD, RaceEnumValue::Unknown);
    game.player_one.field = vec![Some(FieldUnit {
        card_id: UNIT_CARD,
        health: 6,
        attached_energy: AttachedEnergy::none(),
    })];
    let success = game.attach_energy_card_to_field_unit(
        &"token-one".to_string(),
        &"31".to_string(),
        &"40".to_string(),
    );
    assert!(!success);
    assert_eq!(game.player_one.hand, vec![UNIT_CARD, ENERGY_CARD]);
}

#[test]
fn boost_energy_notice_reports_the_unit_state() {
    let mut game = make_match();
    game.player_one.field = vec![Some(FieldUnit {
        card_id: UNIT_CARD,
        health: 6,
        attached_energy: AttachedEnergy { undead: 2, human: 0, angel: 0, machine: 0, trent: 0 },
    })];
    let delivered = game.notice_boost_energy_to_specific_unit_by_using_hand_card(
        1,
        2,
        ENERGY_CARD,
        vec![ENERGY_CARD],
        0,
    );
    assert!(delivered);
    assert_eq!(game.channel.sent.len(), 1);
    match &game.channel.sent[0] {
        NoticeEvent::BoostEnergyToSpecificUnit {
            account_unique_id,
            opponent_unique_id,
            used_hand_card_id,
            used_hand_card_kind,
            boosting_energy_card_id_list,
            unit_index,
            attached_energy,
        } => {
            assert_eq!(*account_unique_id, 1);
            assert_eq!(*opponent_unique_id, 2);
            assert_eq!(*used_hand_card_id, ENERGY_CARD);
            assert_eq!(*used_hand_card_kind, Some(KindEnum::Energy));
            assert_eq!(boosting_energy_card_id_list, &vec![ENERGY_CARD]);
            assert_eq!(*unit_index, 0);
            assert_eq!(attached_energy.undead, 2);
        }
        other => panic!("unexpected event: {:?}", other),
    }
}

#[test]
fn draw_card_notice_carries_the_drawn_list() {
    let mut game = make_match();
    let delivered = game.notice_draw_card_by_using_hand_card(1, 2, UNIT_CARD, vec![7, 8]);
    assert!(delivered);
    assert_eq!(game.channel.sent.len(), 1);
    match &game.channel.sent[0] {
        NoticeEvent::DrawCardByUsingHandCard { drawn_card_list, used_hand_card_kind, .. } => {
            assert_eq!(drawn_card_list, &vec![7, 8]);
            assert_eq!(*used_hand_card_kind, Some(KindEnum::Unit));
        }
        other => panic!("unexpected event: {:?}", other),
    }
}

#[test]
fn draw_card_notice_reports_failed_delivery() {
    let mut game = make_match();
    game.channel.accepting = false;
    let delivered = game.notice_draw_card_by_using_hand_card(1, 2, UNIT_CARD, vec![7, 8]);
    assert!(!delivered);
    assert!(game.channel.sent.is_empty());
}
