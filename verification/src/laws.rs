//! The laws of the resolution pipeline, proved once and for all from the
//! endpoint contracts: what elimination may and may not do, when the round
//! gate blocks an action, and how a decline leaves the match.

use vstd::prelude::*;

use crate::cards::GRADE_CODE_MYTHICAL;
use crate::game::{spec_state_unchanged, GameState, MYTHICAL_USABLE_FROM_ROUND};
use crate::item_controller::{spec_field_energy_outcome, spec_target_death_outcome};
use crate::state::{spec_damaged_unit, FieldUnit};
use crate::text::spec_parse_decimal_i32;

verus! {

/// An elimination request for a card the acting account does not hold
/// declines with zero mutation to any store: the possession gate stands
/// before every mutation stage.
pub proof fn lemma_elimination_without_possession_declines(
    pre: GameState,
    post: GameState,
    session_id: Seq<char>,
    item_card_id_text: Seq<char>,
    target_index_text: Seq<char>,
    success: bool,
    account_id: int,
    card_id: i32,
)
    requires
        spec_target_death_outcome(
            pre,
            post,
            session_id,
            item_card_id_text,
            target_index_text,
            success,
        ),
        account_id == pre.sessions.spec_account_of(session_id),
        spec_parse_decimal_i32(item_card_id_text) == Some(card_id),
        match pre.spec_account_of(account_id) {
            Some(account) => !account.spec_has_in_hand(card_id),
            None => true,
        },
    ensures
        !success,
        spec_state_unchanged(pre, post),
{
}

/// Elimination never removes a Mythical-graded unit: the unit is still on
/// the field afterwards, with exactly the configured fallback damage taken
/// (and its health floored at zero where the damage exceeds it).
pub proof fn lemma_elimination_spares_mythical_unit(
    pre: GameState,
    post: GameState,
    session_id: Seq<char>,
    item_card_id_text: Seq<char>,
    target_index_text: Seq<char>,
    success: bool,
    account_id: int,
    card_id: i32,
    target_index: i32,
    unit: FieldUnit,
)
    requires
        pre.wf(),
        spec_target_death_outcome(
            pre,
            post,
            session_id,
            item_card_id_text,
            target_index_text,
            success,
        ),
        account_id == pre.sessions.spec_account_of(session_id),
        spec_parse_decimal_i32(item_card_id_text) == Some(card_id),
        spec_parse_decimal_i32(target_index_text) == Some(target_index),
        pre.spec_item_gates_pass(account_id, card_id),
        pre.spec_account_of(pre.spec_opponent_id_of(account_id))->Some_0.spec_unit_at(
            target_index as int,
        ) == Some(unit),
        pre.catalog.spec_grade_of(unit.card_id) == Some(GRADE_CODE_MYTHICAL),
    ensures
        post.spec_account_of(pre.spec_opponent_id_of(account_id)) is Some,
        post.spec_account_of(pre.spec_opponent_id_of(account_id))->Some_0.spec_unit_at(
            target_index as int,
        ) == Some(
            spec_damaged_unit(
                unit,
                pre.catalog.spec_item_effect_of(card_id)->Some_0.alternatives_damage as int,
            ),
        ),
        pre.catalog.spec_item_effect_of(card_id)->Some_0.alternatives_damage <= unit.health
            ==> post.spec_account_of(pre.spec_opponent_id_of(account_id))->Some_0.spec_unit_at(
            target_index as int,
        )->Some_0.health == unit.health
            - pre.catalog.spec_item_effect_of(card_id)->Some_0.alternatives_damage,
{
    crate::catalog::lemma_item_effect_wf(pre.catalog, card_id);
    let opponent_id = pre.spec_opponent_id_of(account_id);
    let opponent = pre.spec_account_of(opponent_id)->Some_0;
    let opponent_post = post.spec_account_of(opponent_id)->Some_0;
    assert(opponent_post.field@ == opponent.field@.update(
        target_index as int,
        Some(
            spec_damaged_unit(
                unit,
                pre.catalog.spec_item_effect_of(card_id)->Some_0.alternatives_damage as int,
            ),
        ),
    ));
}

/// Elimination removes a unit of any other grade unconditionally, whatever
/// its remaining health: the slot at the target index is empty afterwards.
pub proof fn lemma_elimination_removes_non_mythical_unit(
    pre: GameState,
    post: GameState,
    session_id: Seq<char>,
    item_card_id_text: Seq<char>,
    target_index_text: Seq<char>,
    success: bool,
    account_id: int,
    card_id: i32,
    target_index: i32,
    unit: FieldUnit,
)
    requires
        pre.wf(),
        spec_target_death_outcome(
            pre,
            post,
            session_id,
            item_card_id_text,
            target_index_text,
            success,
        ),
        account_id == pre.sessions.spec_account_of(session_id),
        spec_parse_decimal_i32(item_card_id_text) == Some(card_id),
        spec_parse_decimal_i32(target_index_text) == Some(target_index),
        pre.spec_item_gates_pass(account_id, card_id),
        pre.spec_account_of(pre.spec_opponent_id_of(account_id))->Some_0.spec_unit_at(
            target_index as int,
        ) == Some(unit),
        pre.catalog.spec_grade_of(unit.card_id) != Some(GRADE_CODE_MYTHICAL),
    ensures
        post.spec_account_of(pre.spec_opponent_id_of(account_id)) is Some,
        post.spec_account_of(pre.spec_opponent_id_of(account_id))->Some_0.spec_unit_at(
            target_index as int,
        ) is None,
{
    let opponent_id = pre.spec_opponent_id_of(account_id);
    let opponent = pre.spec_account_of(opponent_id)->Some_0;
    let opponent_post = post.spec_account_of(opponent_id)->Some_0;
    assert(opponent_post.field@ == opponent.field@.update(target_index as int, None::<FieldUnit>));
}

/// An energy-conversion request that names a unit index where no unit
/// stands declines before any mutation: no energy is added anywhere and the
/// acting card stays in the hand.
pub proof fn lemma_energy_conversion_on_absent_unit_declines(
    pre: GameState,
    post: GameState,
    session_id: Seq<char>,
    item_card_id_text: Seq<char>,
    unit_index_text: Seq<char>,
    success: bool,
    account_id: int,
    unit_index: i32,
)
    requires
        spec_field_energy_outcome(pre, post, session_id, item_card_id_text, unit_index_text, success),
        account_id == pre.sessions.spec_account_of(session_id),
        spec_parse_decimal_i32(unit_index_text) == Some(unit_index),
        match pre.spec_account_of(account_id) {
            Some(account) => account.spec_unit_at(unit_index as int) is None,
            None => true,
        },
    ensures
        !success,
        spec_state_unchanged(pre, post),
{
}

/// The round gate on Mythical-grade cards sits exactly at round four: when
/// the remaining checks all pass, the action declines with the match
/// untouched in rounds one through three, while from round four on it
/// reaches target resolution, and with a live target it succeeds exactly
/// when the channel delivers.
pub proof fn lemma_mythical_round_gate_boundary(
    pre: GameState,
    post: GameState,
    session_id: Seq<char>,
    item_card_id_text: Seq<char>,
    target_index_text: Seq<char>,
    success: bool,
    account_id: int,
    card_id: i32,
    target_index: i32,
)
    requires
        pre.wf(),
        spec_target_death_outcome(
            pre,
            post,
            session_id,
            item_card_id_text,
            target_index_text,
            success,
        ),
        account_id == pre.sessions.spec_account_of(session_id),
        spec_parse_decimal_i32(item_card_id_text) == Some(card_id),
        spec_parse_decimal_i32(target_index_text) == Some(target_index),
        pre.spec_account_of(account_id) is Some,
        pre.spec_account_of(account_id)->Some_0.spec_has_in_hand(card_id),
        pre.catalog.spec_kind_of(card_id) == Some(crate::cards::KindEnum::Item),
        pre.catalog.spec_item_effect_of(card_id) is Some,
        pre.catalog.spec_grade_of(card_id) == Some(GRADE_CODE_MYTHICAL),
    ensures
        pre.round < MYTHICAL_USABLE_FROM_ROUND ==> !success && spec_state_unchanged(pre, post),
        pre.round >= MYTHICAL_USABLE_FROM_ROUND ==> pre.spec_item_gates_pass(account_id, card_id),
        pre.round >= MYTHICAL_USABLE_FROM_ROUND && pre.spec_account_of(
            pre.spec_opponent_id_of(account_id),
        )->Some_0.spec_unit_at(target_index as int) is Some ==> success == pre.channel.accepting,
{
}

/// Two elimination actions in sequence against an index that already holds
/// no unit both decline safely: nothing is removed twice and the match ends
/// exactly as it began.
pub proof fn lemma_double_elimination_of_removed_unit_declines(
    first_pre: GameState,
    mid: GameState,
    last_post: GameState,
    first_session_id: Seq<char>,
    first_card_text: Seq<char>,
    first_index_text: Seq<char>,
    first_success: bool,
    second_session_id: Seq<char>,
    second_card_text: Seq<char>,
    second_index_text: Seq<char>,
    second_success: bool,
    account_id: int,
    target_index: i32,
)
    requires
        first_pre.wf(),
        spec_target_death_outcome(
            first_pre,
            mid,
            first_session_id,
            first_card_text,
            first_index_text,
            first_success,
        ),
        spec_target_death_outcome(
            mid,
            last_post,
            second_session_id,
            second_card_text,
            second_index_text,
            second_success,
        ),
        account_id == first_pre.sessions.spec_account_of(first_session_id),
        account_id == first_pre.sessions.spec_account_of(second_session_id),
        spec_parse_decimal_i32(first_index_text) == Some(target_index),
        spec_parse_decimal_i32(second_index_text) == Some(target_index),
        first_pre.spec_account_of(account_id) is Some,
        first_pre.spec_account_of(first_pre.spec_opponent_id_of(account_id))->Some_0.spec_unit_at(
            target_index as int,
        ) is None,
    ensures
        !first_success,
        !second_success,
        spec_state_unchanged(first_pre, last_post),
{
    assert(spec_state_unchanged(first_pre, mid));
    assert(mid.sessions == first_pre.sessions);
    assert(mid.sessions.spec_account_of(second_session_id) == account_id);
    assert(mid.spec_account_of(account_id) is Some);
    let opponent_id = first_pre.spec_opponent_id_of(account_id);
    assert(mid.spec_opponent_id_of(account_id) == opponent_id);
    assert(mid.spec_account_of(opponent_id)->Some_0.spec_unit_at(target_index as int) is None);
    assert(spec_state_unchanged(mid, last_post));
}

} // verus!
