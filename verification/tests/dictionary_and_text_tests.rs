use card_battle_core::cards::{
    convert_kind_string_to_enum, convert_race_string_to_enum, grade_from_code, GradeEnum, KindEnum,
    RaceEnumValue,
};
use card_battle_core::catalog::CardCatalog;
use card_battle_core::deck::GameDeckCardRedrawResponse;
use card_battle_core::effect::EffectSummary;
use card_battle_core::notice::{
    NoticeApplyDamageToSpecificOpponentUnitResponse, PlayerFieldUnitDamageInfo,
    PlayerFieldUnitDeathInfo, PlayerFieldUnitHealthPointInfo,
};
use card_battle_core::text::parse_decimal_i32;

#[test]
fn test_get_card_grade() {
    let mut card_grade_repository = CardCatalog::new();
    card_grade_repository.register_card_grade(6, 1);
    let card_number: i32 = 6;
    let card_grade = card_grade_repository.get_card_grade(&card_number);

    match card_grade {
        Some(grade) => {
            println!("Card Grade: {}", grade);
            assert_eq!(grade, 1);
        }
        None => println!("Card not found."),
    }
}

#[test]
fn unknown_card_has_no_grade() {
    let catalog = CardCatalog::new();
    assert_eq!(catalog.get_card_grade(&6), None);
}

#[test]
fn latest_registration_wins() {
    let mut catalog = CardCatalog::new();
    catalog.register_card_grade(6, 1);
    catalog.register_card_grade(6, 5);
    assert_eq!(catalog.get_card_grade(&6), Some(5));
}

#[test]
fn legend_mythical_list_keeps_only_top_grades_in_order() {
    let mut catalog = CardCatalog::new();
    catalog.register_card_grade(10, 1);
    catalog.register_card_grade(11, 4);
    catalog.register_card_grade(12, 5);
    catalog.register_card_grade(13, 2);
    catalog.register_card_grade(14, 3);
    let filtered = catalog.get_legend_mythical_card_list(vec![10, 11, 12, 13, 14]);
    assert_eq!(filtered, vec![11, 12]);
}

#[test]
fn kind_and_race_lookups_answer_registered_values() {
    let mut catalog = CardCatalog::new();
    catalog.register_card_kind(20, KindEnum::Energy);
    catalog.register_card_race(20, RaceEnumValue::Undead);
    assert_eq!(catalog.get_card_kind(&20), Some(KindEnum::Energy));
    assert_eq!(catalog.get_card_race(&20), Some(RaceEnumValue::Undead));
    assert_eq!(catalog.get_card_kind(&21), None);
    assert_eq!(catalog.get_card_race(&21), None);
}

#[test]
fn grade_codes_map_totally() {
    assert_eq!(grade_from_code(1), GradeEnum::Common);
    assert_eq!(grade_from_code(2), GradeEnum::Uncommon);
    assert_eq!(grade_from_code(3), GradeEnum::Hero);
    assert_eq!(grade_from_code(4), GradeEnum::Legend);
    assert_eq!(grade_from_code(5), GradeEnum::Mythical);
    assert_eq!(grade_from_code(0), GradeEnum::Unknown);
    assert_eq!(grade_from_code(-7), GradeEnum::Unknown);
}

#[test]
fn race_tokens_map_totally_with_explicit_unknown() {
    assert_eq!(convert_race_string_to_enum("undead"), RaceEnumValue::Undead);
    assert_eq!(convert_race_string_to_enum("human"), RaceEnumValue::Human);
    assert_eq!(convert_race_string_to_enum("angel"), RaceEnumValue::Angel);
    assert_eq!(convert_race_string_to_enum("machine"), RaceEnumValue::Machine);
    assert_eq!(convert_race_string_to_enum("trent"), RaceEnumValue::Trent);
    assert_eq!(convert_race_string_to_enum("dragon"), RaceEnumValue::Unknown);
    assert_eq!(convert_race_string_to_enum(""), RaceEnumValue::Unknown);
}

#[test]
fn kind_tokens_map_totally_with_explicit_unknown() {
    assert_eq!(convert_kind_string_to_enum("unit"), KindEnum::Unit);
    assert_eq!(convert_kind_string_to_enum("item"), KindEnum::Item);
    assert_eq!(convert_kind_string_to_enum("energy"), KindEnum::Energy);
    assert_eq!(convert_kind_string_to_enum("support"), KindEnum::Support);
    assert_eq!(convert_kind_string_to_enum("spell"), KindEnum::Unknown);
}

#[test]
fn numeric_fields_parse_exactly_or_decline() {
    assert_eq!(parse_decimal_i32("0"), Some(0));
    assert_eq!(parse_decimal_i32("58"), Some(58));
    assert_eq!(parse_decimal_i32("007"), Some(7));
    assert_eq!(parse_decimal_i32("2147483647"), Some(i32::MAX));
    assert_eq!(parse_decimal_i32("2147483648"), None);
    assert_eq!(parse_decimal_i32("99999999999999"), None);
    assert_eq!(parse_decimal_i32(""), None);
    assert_eq!(parse_decimal_i32("-1"), None);
    assert_eq!(parse_decimal_i32("12a"), None);
    assert_eq!(parse_decimal_i32(" 3"), None);
}

#[test]
fn effect_summary_converts_health_by_its_divisor() {
    let summary = EffectSummary::new(2, 2);
    assert_eq!(summary.calculation_of_field_energy_increment(8), 4);
    assert_eq!(summary.calculation_of_field_energy_increment(7), 3);
    assert_eq!(summary.calculation_of_field_energy_increment(0), 0);
    assert_eq!(summary.get_alternatives_damage(), 2);
    let whole = EffectSummary::new(0, 1);
    assert_eq!(whole.calculation_of_field_energy_increment(5), 5);
}

#[test]
fn redraw_response_converts_to_mulligan_form() {
    let response = GameDeckCardRedrawResponse::new(vec![4, 8, 15], vec![16, 23, 42]);
    let form = response.to_change_first_hand_response_form();
    assert_eq!(form.get_redrawn_card_list(), &vec![4, 8, 15]);
    assert_eq!(form.get_remaining_shuffled_deck(), &vec![16, 23, 42]);
}

#[test]
fn apply_damage_notice_exposes_its_parts() {
    let response = NoticeApplyDamageToSpecificOpponentUnitResponse::new(
        PlayerFieldUnitDamageInfo::new(2, 3),
        PlayerFieldUnitHealthPointInfo::new(2, 4),
        PlayerFieldUnitDeathInfo::new(2),
    );
    assert_eq!(response.get_player_field_unit_damage_info().damage, 3);
    assert_eq!(response.get_player_field_unit_damage_info().field_unit_index, 2);
    assert_eq!(response.get_player_field_unit_health_point_info().current_health_point, 4);
    assert_eq!(response.get_player_field_unit_death_info().dead_field_unit_index, 2);
}
