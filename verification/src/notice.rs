//! Opponent-visible action events and the channel that delivers them. The
//! channel stands for the external delivery path: `accepting` says whether
//! delivery currently succeeds, and `sent` is the authoritative record of
//! every event that was delivered. Retries and backoff belong to the
//! transport, not to the core.

use vstd::prelude::*;

use crate::cards::KindEnum;
use crate::state::AttachedEnergy;

verus! {

/// An event shown to the opponent after an action resolves.
#[derive(Debug, Clone)]
pub enum NoticeEvent {
    /// An item card eliminated the unit at the index outright.
    UseItemInstantDeath { opponent_unique_id: i32, used_hand_card_id: i32, dead_unit_index: i32 },
    /// Elimination was nullified by grade immunity; fixed fallback damage
    /// was applied instead.
    UseItemInstantDeathAlternatives {
        opponent_unique_id: i32,
        used_hand_card_id: i32,
        target_unit_index: i32,
        alternatives_damage: i32,
    },
    /// An item card converted a unit's health into field energy.
    UseItemFieldEnergyIncrease { opponent_unique_id: i32, used_hand_card_id: i32, amount: i32 },
    /// Energy cards from the hand boosted a specific unit.
    BoostEnergyToSpecificUnit {
        account_unique_id: i32,
        opponent_unique_id: i32,
        used_hand_card_id: i32,
        used_hand_card_kind: Option<KindEnum>,
        boosting_energy_card_id_list: Vec<i32>,
        unit_index: i32,
        attached_energy: AttachedEnergy,
    },
    /// A hand card made its user draw cards.
    DrawCardByUsingHandCard {
        account_unique_id: i32,
        opponent_unique_id: i32,
        used_hand_card_id: i32,
        used_hand_card_kind: Option<KindEnum>,
        drawn_card_list: Vec<i32>,
    },
}

/// The delivery channel for opponent-visible events.
pub struct NoticeChannel {
    pub accepting: bool,
    pub sent: Vec<NoticeEvent>,
}

impl NoticeChannel {
    pub fn new() -> (channel: Self)
        ensures
            channel.accepting,
            channel.sent@ == Seq::<NoticeEvent>::empty(),
    {
        NoticeChannel { accepting: true, sent: Vec::new() }
    }

    /// Hands an event to the delivery path, reporting whether it went
    /// through. A delivered event is recorded; a failed delivery records
    /// nothing.
    pub fn send(&mut self, event: NoticeEvent) -> (ok: bool)
        ensures
            ok == old(self).accepting,
            final(self).accepting == old(self).accepting,
            old(self).accepting ==> final(self).sent@ == old(self).sent@.push(event),
            !old(self).accepting ==> final(self).sent@ == old(self).sent@,
    {
        if self.accepting {
            self.sent.push(event);
            true
        } else {
            false
        }
    }
}

/// Damage shown for one field unit.
#[derive(Clone, Copy, PartialEq, Eq, Structural, Debug)]
pub struct PlayerFieldUnitDamageInfo {
    pub field_unit_index: i32,
    pub damage: i32,
}

impl PlayerFieldUnitDamageInfo {
    pub fn new(field_unit_index: i32, damage: i32) -> (info: Self)
        ensures
            info == (PlayerFieldUnitDamageInfo { field_unit_index, damage }),
    {
        PlayerFieldUnitDamageInfo { field_unit_index, damage }
    }
}

/// Remaining health shown for one field unit.
#[derive(Clone, Copy, PartialEq, Eq, Structural, Debug)]
pub struct PlayerFieldUnitHealthPointInfo {
    pub field_unit_index: i32,
    pub current_health_point: i32,
}

impl PlayerFieldUnitHealthPointInfo {
    pub fn new(field_unit_index: i32, current_health_point: i32) -> (info: Self)
        ensures
            info == (PlayerFieldUnitHealthPointInfo { field_unit_index, current_health_point }),
    {
        PlayerFieldUnitHealthPointInfo { field_unit_index, current_health_point }
    }
}

/// Death shown for one field unit.
#[derive(Clone, Copy, PartialEq, Eq, Structural, Debug)]
pub struct PlayerFieldUnitDeathInfo {
    pub dead_field_unit_index: i32,
}

impl PlayerFieldUnitDeathInfo {
    pub fn new(dead_field_unit_index: i32) -> (info: Self)
        ensures
            info == (PlayerFieldUnitDeathInfo { dead_field_unit_index }),
    {
        PlayerFieldUnitDeathInfo { dead_field_unit_index }
    }
}

/// What the opponent is told after damage lands on one of their units: the
/// damage dealt, the health left, and whether the unit died.
#[derive(Clone, Copy, PartialEq, Eq, Structural, Debug)]
pub struct NoticeApplyDamageToSpecificOpponentUnitResponse {
    pub player_field_unit_damage_info: PlayerFieldUnitDamageInfo,
    pub player_field_unit_health_point_info: PlayerFieldUnitHealthPointInfo,
    pub player_field_unit_death_info: PlayerFieldUnitDeathInfo,
}

impl NoticeApplyDamageToSpecificOpponentUnitResponse {
    pub fn new(
        player_field_unit_damage_info: PlayerFieldUnitDamageInfo,
        player_field_unit_health_point_info: PlayerFieldUnitHealthPointInfo,
        player_field_unit_death_info: PlayerFieldUnitDeathInfo,
    ) -> (response: Self)
        ensures
            response.spec_get_player_field_unit_damage_info() == player_field_unit_damage_info,
            response.spec_get_player_field_unit_health_point_info()
                == player_field_unit_health_point_info,
            response.spec_get_player_field_unit_death_info() == player_field_unit_death_info,
    {
        NoticeApplyDamageToSpecificOpponentUnitResponse {
            player_field_unit_damage_info,
            player_field_unit_health_point_info,
            player_field_unit_death_info,
        }
    }

    pub fn get_player_field_unit_damage_info(&self) -> (info: &PlayerFieldUnitDamageInfo)
        ensures
            info == self.spec_get_player_field_unit_damage_info(),
    {
        &self.player_field_unit_damage_info
    }

    pub open spec fn spec_get_player_field_unit_damage_info(&self) -> PlayerFieldUnitDamageInfo {
        self.player_field_unit_damage_info
    }

    pub fn get_player_field_unit_health_point_info(&self) -> (info: &PlayerFieldUnitHealthPointInfo)
        ensures
            info == self.spec_get_player_field_unit_health_point_info(),
    {
        &self.player_field_unit_health_point_info
    }

    pub open spec fn spec_get_player_field_unit_health_point_info(
        &self,
    ) -> PlayerFieldUnitHealthPointInfo {
        self.player_field_unit_health_point_info
    }

    pub fn get_player_field_unit_death_info(&self) -> (info: &PlayerFieldUnitDeathInfo)
        ensures
            info == self.spec_get_player_field_unit_death_info(),
    {
        &self.player_field_unit_death_info
    }

    pub open spec fn spec_get_player_field_unit_death_info(&self) -> PlayerFieldUnitDeathInfo {
        self.player_field_unit_death_info
    }
}

} // verus!
