//! The item-card action endpoints: the fixed-sequence resolution pipeline
//! for the two item archetypes, target elimination and health-to-energy
//! conversion. Each runs session authentication, the possession, kind and
//! usability gates, effect computation, state mutation and cross-player
//! notification, in that order; a failed gate declines before anything is
//! mutated, and a failure after a mutation stage declines while the
//! committed mutations stand.

use vstd::prelude::*;

use crate::cards::{GRADE_CODE_MYTHICAL, KindEnum};
use crate::game::{
    spec_card_spent, spec_channel_sent, spec_channel_unchanged, spec_non_players_unchanged,
    spec_other_players_unchanged, spec_player_ids_unchanged, spec_state_unchanged, spec_unit_damaged,
    spec_unit_removed, GameState,
};
use crate::notice::NoticeEvent;
use crate::session::INVALID_SESSION_SENTINEL;
use crate::state::{remove_first, ABSENT_UNIT_SENTINEL};
use crate::text::{parse_decimal_i32, spec_parse_decimal_i32};

verus! {

/// A request to use a target-elimination item card. The numeric fields
/// arrive as text, exactly as the transport delivers them.
pub struct TargetDeathItemRequestForm {
    pub session_id: String,
    pub item_card_id: String,
    pub opponent_target_unit_index: String,
}

impl TargetDeathItemRequestForm {
    pub fn new(
        session_id: String,
        item_card_id: String,
        opponent_target_unit_index: String,
    ) -> (form: Self)
        ensures
            form.session_id@ == session_id@,
            form.item_card_id@ == item_card_id@,
            form.opponent_target_unit_index@ == opponent_target_unit_index@,
    {
        TargetDeathItemRequestForm { session_id, item_card_id, opponent_target_unit_index }
    }
}

/// The uniform answer to a target-elimination request: success, or a
/// decline whose cause is not distinguishable from the response alone.
pub struct TargetDeathItemResponseForm {
    pub is_success: bool,
}

impl TargetDeathItemResponseForm {
    pub fn new(is_success: bool) -> (response: Self)
        ensures
            response.is_success == is_success,
    {
        TargetDeathItemResponseForm { is_success }
    }
}

/// A request to convert a friendly unit's current health into field energy.
pub struct AddFieldEnergyWithFieldUnitHealthPointRequestForm {
    pub session_id: String,
    pub item_card_id: String,
    pub field_unit_index: String,
}

impl AddFieldEnergyWithFieldUnitHealthPointRequestForm {
    pub fn new(session_id: String, item_card_id: String, field_unit_index: String) -> (form: Self)
        ensures
            form.session_id@ == session_id@,
            form.item_card_id@ == item_card_id@,
            form.field_unit_index@ == field_unit_index@,
    {
        AddFieldEnergyWithFieldUnitHealthPointRequestForm { session_id, item_card_id, field_unit_index }
    }
}

/// The uniform answer to a health-to-energy conversion request.
pub struct AddFieldEnergyWithFieldUnitHealthPointResponseForm {
    pub is_success: bool,
}

impl AddFieldEnergyWithFieldUnitHealthPointResponseForm {
    pub fn new(is_success: bool) -> (response: Self)
        ensures
            response.is_success == is_success,
    {
        AddFieldEnergyWithFieldUnitHealthPointResponseForm { is_success }
    }
}

impl GameState {
    /// The gates every item-card action passes before any mutation: the
    /// acting account is in this match and holds the card, the dictionary
    /// classifies the card as an item card, the round gate admits it, and
    /// static card data yields an effect for it.
    pub open spec fn spec_item_gates_pass(self, account_id: int, card_id: i32) -> bool {
        &&& self.spec_account_of(account_id) is Some
        &&& self.spec_account_of(account_id)->Some_0.spec_has_in_hand(card_id)
        &&& self.catalog.spec_kind_of(card_id) == Some(KindEnum::Item)
        &&& self.spec_is_able_to_use(card_id)
        &&& self.catalog.spec_item_effect_of(card_id) is Some
    }
}

/// Everything the target-elimination endpoint may do, for every input. A
/// failed session lookup, a malformed numeric field, a failed gate or an
/// absent target declines with the match untouched. Past the gates, a
/// Mythical-graded target is immune to elimination and takes exactly the
/// configured fallback damage instead, while any other target is removed
/// outright regardless of health; either way the acting card moves from the
/// hand to the tomb and the outcome is handed to the notification channel.
/// A delivery failure is reported as a decline even though the committed
/// mutations stand.
pub open spec fn spec_target_death_outcome(
    pre: GameState,
    post: GameState,
    session_id: Seq<char>,
    item_card_id_text: Seq<char>,
    target_index_text: Seq<char>,
    success: bool,
) -> bool {
    let account_id = pre.sessions.spec_account_of(session_id);
    let parsed_card = spec_parse_decimal_i32(item_card_id_text);
    let parsed_index = spec_parse_decimal_i32(target_index_text);
    if account_id == INVALID_SESSION_SENTINEL as int || parsed_card is None || parsed_index is None {
        !success && spec_state_unchanged(pre, post)
    } else {
        let card_id = parsed_card->Some_0;
        let index = parsed_index->Some_0;
        if !pre.spec_item_gates_pass(account_id, card_id) {
            !success && spec_state_unchanged(pre, post)
        } else {
            let actor = pre.spec_account_of(account_id)->Some_0;
            let opponent_id = pre.spec_opponent_id_of(account_id);
            let opponent = pre.spec_account_of(opponent_id)->Some_0;
            let effect = pre.catalog.spec_item_effect_of(card_id)->Some_0;
            match opponent.spec_unit_at(index as int) {
                None => !success && spec_state_unchanged(pre, post),
                Some(unit) => {
                    &&& spec_non_players_unchanged(pre, post)
                    &&& spec_player_ids_unchanged(pre, post)
                    &&& spec_card_spent(actor, post.spec_account_of(account_id)->Some_0, card_id)
                    &&& if pre.catalog.spec_grade_of(unit.card_id) == Some(GRADE_CODE_MYTHICAL) {
                        &&& spec_unit_damaged(
                            opponent,
                            post.spec_account_of(opponent_id)->Some_0,
                            index as int,
                            effect.alternatives_damage as int,
                        )
                        &&& spec_channel_sent(
                            pre,
                            post,
                            NoticeEvent::UseItemInstantDeathAlternatives {
                                opponent_unique_id: opponent.account_id,
                                used_hand_card_id: card_id,
                                target_unit_index: index,
                                alternatives_damage: effect.alternatives_damage,
                            },
                        )
                    } else {
                        &&& spec_unit_removed(
                            opponent,
                            post.spec_account_of(opponent_id)->Some_0,
                            index as int,
                        )
                        &&& spec_channel_sent(
                            pre,
                            post,
                            NoticeEvent::UseItemInstantDeath {
                                opponent_unique_id: opponent.account_id,
                                used_hand_card_id: card_id,
                                dead_unit_index: index,
                            },
                        )
                    }
                    &&& success == pre.channel.accepting
                },
            }
        }
    }
}

/// Everything the health-to-energy endpoint may do, for every input. A
/// failed session lookup, a malformed field, a failed gate, an absent unit
/// at the claimed index or an overflowing pool declines with the match
/// untouched. Past those, the produced amount is added to the acting
/// account's pool and the action is handed to the notification channel; only
/// after a successful delivery does the acting card move from the hand to
/// the tomb. A delivery failure is reported as a decline while the already
/// committed energy stands and the card stays in the hand.
pub open spec fn spec_field_energy_outcome(
    pre: GameState,
    post: GameState,
    session_id: Seq<char>,
    item_card_id_text: Seq<char>,
    unit_index_text: Seq<char>,
    success: bool,
) -> bool {
    let account_id = pre.sessions.spec_account_of(session_id);
    let parsed_card = spec_parse_decimal_i32(item_card_id_text);
    let parsed_index = spec_parse_decimal_i32(unit_index_text);
    if account_id == INVALID_SESSION_SENTINEL as int || parsed_card is None || parsed_index is None {
        !success && spec_state_unchanged(pre, post)
    } else {
        let card_id = parsed_card->Some_0;
        let index = parsed_index->Some_0;
        if !pre.spec_item_gates_pass(account_id, card_id) {
            !success && spec_state_unchanged(pre, post)
        } else {
            let actor = pre.spec_account_of(account_id)->Some_0;
            let effect = pre.catalog.spec_item_effect_of(card_id)->Some_0;
            match actor.spec_unit_at(index as int) {
                None => !success && spec_state_unchanged(pre, post),
                Some(unit) => {
                    let amount = effect.spec_field_energy_increment(unit.health as int);
                    if actor.field_energy + amount > i32::MAX {
                        !success && spec_state_unchanged(pre, post)
                    } else {
                        let actor_post = post.spec_account_of(account_id)->Some_0;
                        &&& spec_non_players_unchanged(pre, post)
                        &&& spec_player_ids_unchanged(pre, post)
                        &&& spec_other_players_unchanged(pre, post, account_id)
                        &&& actor_post.account_id == actor.account_id
                        &&& actor_post.field@ == actor.field@
                        &&& actor_post.field_energy == actor.field_energy + amount
                        &&& if pre.channel.accepting {
                            &&& success
                            &&& actor_post.hand@ == remove_first(actor.hand@, card_id)
                            &&& actor_post.tomb@ == actor.tomb@.push(card_id)
                            &&& spec_channel_sent(
                                pre,
                                post,
                                NoticeEvent::UseItemFieldEnergyIncrease {
                                    opponent_unique_id: pre.spec_opponent_id_of(account_id) as i32,
                                    used_hand_card_id: card_id,
                                    amount: amount as i32,
                                },
                            )
                        } else {
                            &&& !success
                            &&& actor_post.hand@ == actor.hand@
                            &&& actor_post.tomb@ == actor.tomb@
                            &&& spec_channel_unchanged(pre, post)
                        }
                    }
                },
            }
        }
    }
}

impl GameState {
    /// Resolves a target-elimination item request from start to finish:
    /// authentication, boundary conversion of the text fields, the
    /// anti-cheat, kind and usability gates, target resolution, the
    /// elimination or its grade-immune fallback, the hand-to-tomb move of
    /// the acting card, and the opponent notification.
    pub fn request_to_use_target_death_item(
        &mut self,
        form: &TargetDeathItemRequestForm,
    ) -> (response: TargetDeathItemResponseForm)
        requires
            old(self).wf(),
        ensures
            final(self).wf(),
            spec_target_death_outcome(
                *old(self),
                *final(self),
                form.session_id@,
                form.item_card_id@,
                form.opponent_target_unit_index@,
                response.is_success,
            ),
    {
        let account_unique_id = self.is_valid_session(&form.session_id);
        if account_unique_id == INVALID_SESSION_SENTINEL {
            return TargetDeathItemResponseForm::new(false);
        }
        let item_card_id = match parse_decimal_i32(form.item_card_id.as_str()) {
            Some(id) => id,
            None => {
                return TargetDeathItemResponseForm::new(false);
            },
        };
        let opponent_target_unit_index = match parse_decimal_i32(
            form.opponent_target_unit_index.as_str(),
        ) {
            Some(index) => index,
            None => {
                return TargetDeathItemResponseForm::new(false);
            },
        };
        if !self.is_valid_protocol(account_unique_id, item_card_id) {
            return TargetDeathItemResponseForm::new(false);
        }
        if !self.is_it_item_card(item_card_id) {
            return TargetDeathItemResponseForm::new(false);
        }
        if !self.is_able_to_use(account_unique_id, item_card_id) {
            return TargetDeathItemResponseForm::new(false);
        }
        let summary = match self.get_summary_of_item_card(item_card_id) {
            Some(summary) => summary,
            None => {
                return TargetDeathItemResponseForm::new(false);
            },
        };
        let opponent_unique_id = self.find_opponent_by_account_unique_id(account_unique_id);
        let target_unit_id = self.find_target_unit_id_by_index(
            opponent_unique_id,
            opponent_target_unit_index,
        );
        if target_unit_id == ABSENT_UNIT_SENTINEL {
            return TargetDeathItemResponseForm::new(false);
        }
        let target_unit_grade = self.catalog.get_card_grade(&target_unit_id);
        let is_mythical = match target_unit_grade {
            Some(grade_code) => grade_code == GRADE_CODE_MYTHICAL,
            None => false,
        };
        if is_mythical {
            self.apply_damage_to_target_unit_index(
                opponent_unique_id,
                opponent_target_unit_index,
                summary.get_alternatives_damage(),
            );
        } else {
            self.apply_instant_death_to_target_unit_index(
                opponent_unique_id,
                opponent_target_unit_index,
            );
        }
        let usage_hand_card = self.use_item_card(account_unique_id, item_card_id);
        self.place_used_card_to_tomb(account_unique_id, usage_hand_card);
        let delivered = if is_mythical {
            self.channel.send(
                NoticeEvent::UseItemInstantDeathAlternatives {
                    opponent_unique_id,
                    used_hand_card_id: usage_hand_card,
                    target_unit_index: opponent_target_unit_index,
                    alternatives_damage: summary.get_alternatives_damage(),
                },
            )
        } else {
            self.channel.send(
                NoticeEvent::UseItemInstantDeath {
                    opponent_unique_id,
                    used_hand_card_id: usage_hand_card,
                    dead_unit_index: opponent_target_unit_index,
                },
            )
        };
        TargetDeathItemResponseForm::new(delivered)
    }

    /// Resolves a health-to-energy conversion request from start to finish:
    /// authentication, boundary conversion, the gates, the sentinel check on
    /// the claimed unit, the conversion formula, the energy commit, the
    /// opponent notification, and - only after a successful delivery - the
    /// hand-to-tomb move of the acting card.
    pub fn request_to_use_add_field_energy_with_field_unit_health_point(
        &mut self,
        form: &AddFieldEnergyWithFieldUnitHealthPointRequestForm,
    ) -> (response: AddFieldEnergyWithFieldUnitHealthPointResponseForm)
        requires
            old(self).wf(),
        ensures
            final(self).wf(),
            spec_field_energy_outcome(
                *old(self),
                *final(self),
                form.session_id@,
                form.item_card_id@,
                form.field_unit_index@,
                response.is_success,
            ),
    {
        let account_unique_id = self.is_valid_session(&form.session_id);
        if account_unique_id == INVALID_SESSION_SENTINEL {
            return AddFieldEnergyWithFieldUnitHealthPointResponseForm::new(false);
        }
        let item_card_id = match parse_decimal_i32(form.item_card_id.as_str()) {
            Some(id) => id,
            None => {
                return AddFieldEnergyWithFieldUnitHealthPointResponseForm::new(false);
            },
        };
        let field_unit_index = match parse_decimal_i32(form.field_unit_index.as_str()) {
            Some(index) => index,
            None => {
                return AddFieldEnergyWithFieldUnitHealthPointResponseForm::new(false);
            },
        };
        if !self.is_valid_protocol(account_unique_id, item_card_id) {
            return AddFieldEnergyWithFieldUnitHealthPointResponseForm::new(false);
        }
        if !self.is_it_item_card(item_card_id) {
            return AddFieldEnergyWithFieldUnitHealthPointResponseForm::new(false);
        }
        if !self.is_able_to_use(account_unique_id, item_card_id) {
            return AddFieldEnergyWithFieldUnitHealthPointResponseForm::new(false);
        }
        let current_health_point = self.get_current_health_point_of_field_unit_by_index(
            account_unique_id,
            field_unit_index,
        );
        if current_health_point == ABSENT_UNIT_SENTINEL {
            return AddFieldEnergyWithFieldUnitHealthPointResponseForm::new(false);
        }
        let summary = match self.get_summary_of_item_card(item_card_id) {
            Some(summary) => summary,
            None => {
                return AddFieldEnergyWithFieldUnitHealthPointResponseForm::new(false);
            },
        };
        let field_energy_amount_to_increase = summary.calculation_of_field_energy_increment(
            current_health_point,
        );
        let added = self.add_field_energy_with_amount(
            account_unique_id,
            field_energy_amount_to_increase,
        );
        if !added {
            return AddFieldEnergyWithFieldUnitHealthPointResponseForm::new(false);
        }
        let opponent_unique_id = self.find_opponent_by_account_unique_id(account_unique_id);
        let delivered = self.channel.send(
            NoticeEvent::UseItemFieldEnergyIncrease {
                opponent_unique_id,
                used_hand_card_id: item_card_id,
                amount: field_energy_amount_to_increase,
            },
        );
        if !delivered {
            return AddFieldEnergyWithFieldUnitHealthPointResponseForm::new(false);
        }
        let usage_hand_card = self.use_item_card(account_unique_id, item_card_id);
        self.place_used_card_to_tomb(account_unique_id, usage_hand_card);
        AddFieldEnergyWithFieldUnitHealthPointResponseForm::new(true)
    }
}

} // verus!
