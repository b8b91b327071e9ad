//! The hand service: playing a unit card from the hand onto the field, and
//! attaching an energy card from the hand to a friendly field unit. Both
//! flows run the same shape of pipeline as the item endpoints: session
//! authentication, boundary conversion, possession and kind gates, then the
//! mutation.

use vstd::prelude::*;

use crate::cards::{KindEnum, RaceEnumValue};
use crate::game::{
    spec_channel_unchanged, spec_non_players_unchanged, spec_other_players_unchanged,
    spec_player_ids_unchanged, spec_players_unchanged, spec_state_unchanged, GameState,
};
use crate::session::INVALID_SESSION_SENTINEL;
use crate::state::{remove_first, AttachedEnergy, FieldUnit};
use crate::text::{parse_decimal_i32, spec_parse_decimal_i32};

verus! {

/// The health a freshly played unit enters the field with. Per-card base
/// stats sit outside the kind, grade and race dictionaries this core
/// consumes, so entry health is uniform.
pub const FRESH_UNIT_HEALTH: i32 = 10;

/// Everything the unit-play endpoint may do, for every input. A failed
/// session lookup, a malformed unit field, a card missing from the hand or
/// a card the dictionary does not class as a unit declines with the match
/// untouched. Otherwise the card leaves the hand and a fresh unit with no
/// attached energy joins the end of the acting account's field.
pub open spec fn spec_use_unit_card_outcome(
    pre: GameState,
    post: GameState,
    session_id: Seq<char>,
    unit_number_text: Seq<char>,
    success: bool,
) -> bool {
    let account_id = pre.sessions.spec_account_of(session_id);
    let parsed = spec_parse_decimal_i32(unit_number_text);
    if account_id == INVALID_SESSION_SENTINEL as int || parsed is None {
        !success && spec_state_unchanged(pre, post)
    } else {
        let unit_card_number = parsed->Some_0;
        if !(pre.spec_account_of(account_id) is Some
            && pre.spec_account_of(account_id)->Some_0.spec_has_in_hand(unit_card_number)
            && pre.catalog.spec_kind_of(unit_card_number) == Some(KindEnum::Unit)) {
            !success && spec_state_unchanged(pre, post)
        } else {
            let actor = pre.spec_account_of(account_id)->Some_0;
            let actor_post = post.spec_account_of(account_id)->Some_0;
            &&& success
            &&& spec_non_players_unchanged(pre, post)
            &&& spec_player_ids_unchanged(pre, post)
            &&& spec_other_players_unchanged(pre, post, account_id)
            &&& spec_channel_unchanged(pre, post)
            &&& actor_post.account_id == actor.account_id
            &&& actor_post.hand@ == remove_first(actor.hand@, unit_card_number)
            &&& actor_post.field@ == actor.field@.push(
                Some(
                    FieldUnit {
                        card_id: unit_card_number,
                        health: FRESH_UNIT_HEALTH,
                        attached_energy: AttachedEnergy {
                            undead: 0,
                            human: 0,
                            angel: 0,
                            machine: 0,
                            trent: 0,
                        },
                    },
                ),
            )
            &&& actor_post.tomb@ == actor.tomb@
            &&& actor_post.field_energy == actor.field_energy
        }
    }
}

/// Everything the energy-attach endpoint may do, for every input. The gates
/// are the session, the two numeric fields, the energy card being in the
/// hand, the kinds of both cards, and a known race for the energy card.
/// Past them, the attach lands on the first friendly unit played from the
/// named unit card: that unit gains one energy of the race and the energy
/// card leaves the hand; no such unit, or an overflowing count, declines
/// with the match untouched.
pub open spec fn spec_attach_energy_outcome(
    pre: GameState,
    post: GameState,
    session_id: Seq<char>,
    unit_number_text: Seq<char>,
    energy_card_id_text: Seq<char>,
    success: bool,
) -> bool {
    let account_id = pre.sessions.spec_account_of(session_id);
    let parsed_unit = spec_parse_decimal_i32(unit_number_text);
    let parsed_energy = spec_parse_decimal_i32(energy_card_id_text);
    if account_id == INVALID_SESSION_SENTINEL as int || parsed_unit is None || parsed_energy is None {
        !success && spec_state_unchanged(pre, post)
    } else {
        let unit_card_number = parsed_unit->Some_0;
        let energy_card_id = parsed_energy->Some_0;
        let race = pre.catalog.spec_race_of(energy_card_id);
        if !(pre.spec_account_of(account_id) is Some
            && pre.spec_account_of(account_id)->Some_0.spec_has_in_hand(energy_card_id)
            && pre.catalog.spec_kind_of(energy_card_id) == Some(KindEnum::Energy)
            && pre.catalog.spec_kind_of(unit_card_number) == Some(KindEnum::Unit)
            && race is Some
            && race->Some_0 != RaceEnumValue::Unknown) {
            !success && spec_state_unchanged(pre, post)
        } else {
            let actor = pre.spec_account_of(account_id)->Some_0;
            match actor.spec_find_unit_from(unit_card_number, 0) {
                None => !success && spec_state_unchanged(pre, post),
                Some(slot) => {
                    let unit = actor.field@[slot]->Some_0;
                    if unit.attached_energy.spec_count_of(race->Some_0) + 1 > i32::MAX {
                        !success && spec_state_unchanged(pre, post)
                    } else {
                        let actor_post = post.spec_account_of(account_id)->Some_0;
                        &&& success
                        &&& spec_non_players_unchanged(pre, post)
                        &&& spec_player_ids_unchanged(pre, post)
                        &&& spec_other_players_unchanged(pre, post, account_id)
                        &&& spec_channel_unchanged(pre, post)
                        &&& actor_post.account_id == actor.account_id
                        &&& actor_post.hand@ == remove_first(actor.hand@, energy_card_id)
                        &&& actor_post.field@.len() == actor.field@.len()
                        &&& actor_post.field@[slot] is Some
                        &&& actor_post.field@[slot]->Some_0.card_id == unit.card_id
                        &&& actor_post.field@[slot]->Some_0.health == unit.health
                        &&& actor_post.field@[slot]->Some_0.attached_energy.spec_count_of(
                            race->Some_0,
                        ) == unit.attached_energy.spec_count_of(race->Some_0) + 1
                        &&& forall|other: RaceEnumValue| other != race->Some_0
                            ==> actor_post.field@[slot]->Some_0.attached_energy.spec_count_of(other)
                                == unit.attached_energy.spec_count_of(other)
                        &&& forall|j: int| 0 <= j < actor.field@.len() && j != slot
                            ==> actor_post.field@[j] == actor.field@[j]
                        &&& actor_post.tomb@ == actor.tomb@
                        &&& actor_post.field_energy == actor.field_energy
                    }
                },
            }
        }
    }
}

impl GameState {
    /// The account bound to the session token, or the invalid-session
    /// sentinel; callers must test the sentinel explicitly.
    pub fn get_account_unique_id(&self, session_id: &String) -> (account_unique_id: i32)
        requires
            self.wf(),
        ensures
            account_unique_id == self.sessions.spec_account_of(session_id@),
            account_unique_id != INVALID_SESSION_SENTINEL ==> account_unique_id >= 1,
    {
        self.sessions.get_account_for_session(session_id)
    }

    /// The anti-cheat check of the hand service: tampering is suspected
    /// exactly when the claimed card is not in the claimed account's hand.
    pub fn check_protocol_hacking(&self, account_unique_id: i32, unit_card_number: i32) -> (suspected: bool)
        requires
            self.wf(),
        ensures
            suspected == !match self.spec_account_of(account_unique_id as int) {
                Some(account) => account.spec_has_in_hand(unit_card_number),
                None => false,
            },
    {
        !self.is_valid_protocol(account_unique_id, unit_card_number)
    }

    /// Dispatches a fresh unit onto the account's field.
    fn add_unit_to_game_field(&mut self, account_unique_id: i32, card_id: i32, health: i32)
        requires
            old(self).wf(),
            card_id >= 0,
            health >= 0,
        ensures
            final(self).wf(),
            spec_non_players_unchanged(*old(self), *final(self)),
            spec_channel_unchanged(*old(self), *final(self)),
            spec_player_ids_unchanged(*old(self), *final(self)),
            spec_other_players_unchanged(*old(self), *final(self), account_unique_id as int),
            match old(self).spec_account_of(account_unique_id as int) {
                Some(account) => {
                    &&& final(self).spec_account_of(account_unique_id as int) is Some
                    &&& {
                        let post = final(self).spec_account_of(account_unique_id as int)->Some_0;
                        &&& post.account_id == account.account_id
                        &&& post.hand@ == account.hand@
                        &&& post.field@ == account.field@.push(
                            Some(
                                FieldUnit {
                                    card_id,
                                    health,
                                    attached_energy: AttachedEnergy {
                                        undead: 0,
                                        human: 0,
                                        angel: 0,
                                        machine: 0,
                                        trent: 0,
                                    },
                                },
                            ),
                        )
                        &&& post.tomb@ == account.tomb@
                        &&& post.field_energy == account.field_energy
                    }
                },
                None => spec_players_unchanged(*old(self), *final(self)),
            },
    {
        if account_unique_id == self.player_one.account_id {
            self.player_one.add_unit_to_game_field(card_id, health);
        } else if account_unique_id == self.player_two.account_id {
            self.player_two.add_unit_to_game_field(card_id, health);
        }
    }

    /// Dispatches an energy attach to the account's field, reporting whether
    /// a unit played from the card was found and its count had room.
    fn attach_energy_to_game_field_unit(
        &mut self,
        account_unique_id: i32,
        unit_card_id: i32,
        race: RaceEnumValue,
        quantity: i32,
    ) -> (ok: bool)
        requires
            old(self).wf(),
            quantity >= 0,
            race != RaceEnumValue::Unknown,
        ensures
            final(self).wf(),
            spec_non_players_unchanged(*old(self), *final(self)),
            spec_channel_unchanged(*old(self), *final(self)),
            spec_player_ids_unchanged(*old(self), *final(self)),
            spec_other_players_unchanged(*old(self), *final(self), account_unique_id as int),
            match old(self).spec_account_of(account_unique_id as int) {
                Some(account) => match account.spec_find_unit_from(unit_card_id, 0) {
                    Some(slot) => {
                        let unit = account.field@[slot]->Some_0;
                        let post = final(self).spec_account_of(account_unique_id as int)->Some_0;
                        if unit.attached_energy.spec_count_of(race) + quantity <= i32::MAX {
                            &&& ok
                            &&& final(self).spec_account_of(account_unique_id as int) is Some
                            &&& post.account_id == account.account_id
                            &&& post.hand@ == account.hand@
                            &&& post.tomb@ == account.tomb@
                            &&& post.field_energy == account.field_energy
                            &&& post.field@.len() == account.field@.len()
                            &&& post.field@[slot] is Some
                            &&& post.field@[slot]->Some_0.card_id == unit.card_id
                            &&& post.field@[slot]->Some_0.health == unit.health
                            &&& post.field@[slot]->Some_0.attached_energy.spec_count_of(race)
                                == unit.attached_energy.spec_count_of(race) + quantity
                            &&& forall|other: RaceEnumValue| other != race
                                ==> post.field@[slot]->Some_0.attached_energy.spec_count_of(other)
                                    == unit.attached_energy.spec_count_of(other)
                            &&& forall|j: int| 0 <= j < account.field@.len() && j != slot
                                ==> post.field@[j] == account.field@[j]
                        } else {
                            !ok && spec_players_unchanged(*old(self), *final(self))
                        }
                    },
                    None => !ok && spec_players_unchanged(*old(self), *final(self)),
                },
                None => !ok && spec_players_unchanged(*old(self), *final(self)),
            },
    {
        if account_unique_id == self.player_one.account_id {
            self.player_one.attach_energy_to_game_field_unit(unit_card_id, race, quantity)
        } else if account_unique_id == self.player_two.account_id {
            self.player_two.attach_energy_to_game_field_unit(unit_card_id, race, quantity)
        } else {
            false
        }
    }

    /// Plays a unit card from the hand: authentication, boundary conversion,
    /// the possession and kind gates, then the hand-to-field transfer.
    pub fn use_specific_card(&mut self, session_id: &String, unit_number: &String) -> (success: bool)
        requires
            old(self).wf(),
        ensures
            final(self).wf(),
            spec_use_unit_card_outcome(
                *old(self),
                *final(self),
                session_id@,
                unit_number@,
                success,
            ),
    {
        let account_unique_id = self.get_account_unique_id(session_id);
        if account_unique_id == INVALID_SESSION_SENTINEL {
            return false;
        }
        let unit_card_number = match parse_decimal_i32(unit_number.as_str()) {
            Some(number) => number,
            None => {
                return false;
            },
        };
        if self.check_protocol_hacking(account_unique_id, unit_card_number) {
            return false;
        }
        let is_unit_card = match self.catalog.get_card_kind(&unit_card_number) {
            Some(kind) => kind == KindEnum::Unit,
            None => false,
        };
        if !is_unit_card {
            return false;
        }
        let specific_card = self.use_item_card(account_unique_id, unit_card_number);
        self.add_unit_to_game_field(account_unique_id, specific_card, FRESH_UNIT_HEALTH);
        true
    }

    /// Attaches one energy card from the hand to the first friendly unit
    /// played from the named unit card: authentication, boundary
    /// conversion, the possession, kind and race gates, then the attach and
    /// the hand removal.
    pub fn attach_energy_card_to_field_unit(
        &mut self,
        session_id: &String,
        unit_number: &String,
        energy_card_id: &String,
    ) -> (success: bool)
        requires
            old(self).wf(),
        ensures
            final(self).wf(),
            spec_attach_energy_outcome(
                *old(self),
                *final(self),
                session_id@,
                unit_number@,
                energy_card_id@,
                success,
            ),
    {
        let account_unique_id = self.get_account_unique_id(session_id);
        if account_unique_id == INVALID_SESSION_SENTINEL {
            return false;
        }
        let unit_card_number = match parse_decimal_i32(unit_number.as_str()) {
            Some(number) => number,
            None => {
                return false;
            },
        };
        let energy_card_number = match parse_decimal_i32(energy_card_id.as_str()) {
            Some(number) => number,
            None => {
                return false;
            },
        };
        if self.check_protocol_hacking(account_unique_id, energy_card_number) {
            return false;
        }
        let is_energy_card = match self.catalog.get_card_kind(&energy_card_number) {
            Some(kind) => kind == KindEnum::Energy,
            None => false,
        };
        if !is_energy_card {
            return false;
        }
        let is_unit_card = match self.catalog.get_card_kind(&unit_card_number) {
            Some(kind) => kind == KindEnum::Unit,
            None => false,
        };
        if !is_unit_card {
            return false;
        }
        let race = match self.catalog.get_card_race(&energy_card_number) {
            Some(race) => race,
            None => {
                return false;
            },
        };
        if race == RaceEnumValue::Unknown {
            return false;
        }
        let attached = self.attach_energy_to_game_field_unit(
            account_unique_id,
            unit_card_number,
            race,
            1,
        );
        if !attached {
            return false;
        }
        self.use_item_card(account_unique_id, energy_card_number);
        true
    }
}

} // verus!
