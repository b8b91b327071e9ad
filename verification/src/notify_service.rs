//! The notification-info service: builds the opponent-visible event for an
//! action another controller resolved - an energy boost on a unit, or cards
//! drawn by a hand card - from the card dictionaries and the acting
//! account's field, and hands it to the delivery channel.

use vstd::prelude::*;

use crate::game::{
    spec_non_players_unchanged, spec_players_unchanged, GameState,
};
use crate::notice::NoticeEvent;
use crate::state::AttachedEnergy;

verus! {

impl GameState {
    /// The energy counts attached to the account's unit at the index.
    pub fn acquire_energy_map_of_indexed_unit(
        &self,
        account_unique_id: i32,
        unit_index: i32,
    ) -> (energy: AttachedEnergy)
        requires
            self.wf(),
            self.spec_account_of(account_unique_id as int) is Some,
            self.spec_account_of(account_unique_id as int)->Some_0.spec_unit_at(unit_index as int)
                is Some,
        ensures
            energy == self.spec_account_of(account_unique_id as int)->Some_0.spec_unit_at(
                unit_index as int,
            )->Some_0.attached_energy,
    {
        let i = unit_index as usize;
        if account_unique_id == self.player_one.account_id {
            match self.player_one.field[i] {
                Some(unit) => unit.attached_energy,
                None => AttachedEnergy::none(),
            }
        } else {
            match self.player_two.field[i] {
                Some(unit) => unit.attached_energy,
                None => AttachedEnergy::none(),
            }
        }
    }

    /// Tells the opponent that energy cards from the hand boosted a unit:
    /// the used card and its dictionary kind, the boosting cards, the unit
    /// index and the unit's attached energy after the boost. Reports the
    /// delivery outcome.
    pub fn notice_boost_energy_to_specific_unit_by_using_hand_card(
        &mut self,
        account_unique_id: i32,
        opponent_unique_id: i32,
        used_hand_card_id: i32,
        found_energy_card_id_list: Vec<i32>,
        unit_index: i32,
    ) -> (success: bool)
        requires
            old(self).wf(),
            old(self).spec_account_of(account_unique_id as int) is Some,
            old(self).spec_account_of(account_unique_id as int)->Some_0.spec_unit_at(
                unit_index as int,
            ) is Some,
        ensures
            final(self).wf(),
            spec_non_players_unchanged(*old(self), *final(self)),
            spec_players_unchanged(*old(self), *final(self)),
            success == old(self).channel.accepting,
            final(self).channel.accepting == old(self).channel.accepting,
            !old(self).channel.accepting ==> final(self).channel.sent@ == old(self).channel.sent@,
            old(self).channel.accepting ==> {
                &&& final(self).channel.sent@.len() == old(self).channel.sent@.len() + 1
                &&& final(self).channel.sent@.drop_last() == old(self).channel.sent@
                &&& (final(self).channel.sent@.last() matches NoticeEvent::BoostEnergyToSpecificUnit {
                    account_unique_id: event_account,
                    opponent_unique_id: event_opponent,
                    used_hand_card_id: event_card,
                    used_hand_card_kind: event_kind,
                    boosting_energy_card_id_list: event_list,
                    unit_index: event_index,
                    attached_energy: event_energy,
                } && event_account == account_unique_id && event_opponent == opponent_unique_id
                    && event_card == used_hand_card_id && event_kind == old(
                    self,
                ).catalog.spec_kind_of(used_hand_card_id) && event_list@
                    == found_energy_card_id_list@ && event_index == unit_index && event_energy
                    == old(self).spec_account_of(account_unique_id as int)->Some_0.spec_unit_at(
                    unit_index as int,
                )->Some_0.attached_energy)
            },
    {
        let hand_card_kind = self.catalog.get_card_kind(&used_hand_card_id);
        let attached_energy = self.acquire_energy_map_of_indexed_unit(account_unique_id, unit_index);
        let delivered = self.channel.send(
            NoticeEvent::BoostEnergyToSpecificUnit {
                account_unique_id,
                opponent_unique_id,
                used_hand_card_id,
                used_hand_card_kind: hand_card_kind,
                boosting_energy_card_id_list: found_energy_card_id_list,
                unit_index,
                attached_energy,
            },
        );
        proof {
            if old(self).channel.accepting {
                assert(self.channel.sent@.drop_last() =~= old(self).channel.sent@);
            }
        }
        delivered
    }

    /// Tells the opponent that a hand card made its user draw cards: the
    /// used card and its dictionary kind, and the drawn card list. Reports
    /// the delivery outcome.
    pub fn notice_draw_card_by_using_hand_card(
        &mut self,
        account_unique_id: i32,
        opponent_unique_id: i32,
        used_hand_card_id: i32,
        drawn_card_list: Vec<i32>,
    ) -> (success: bool)
        requires
            old(self).wf(),
        ensures
            final(self).wf(),
            spec_non_players_unchanged(*old(self), *final(self)),
            spec_players_unchanged(*old(self), *final(self)),
            success == old(self).channel.accepting,
            final(self).channel.accepting == old(self).channel.accepting,
            !old(self).channel.accepting ==> final(self).channel.sent@ == old(self).channel.sent@,
            old(self).channel.accepting ==> {
                &&& final(self).channel.sent@.len() == old(self).channel.sent@.len() + 1
                &&& final(self).channel.sent@.drop_last() == old(self).channel.sent@
                &&& (final(self).channel.sent@.last() matches NoticeEvent::DrawCardByUsingHandCard {
                    account_unique_id: event_account,
                    opponent_unique_id: event_opponent,
                    used_hand_card_id: event_card,
                    used_hand_card_kind: event_kind,
                    drawn_card_list: event_list,
                } && event_account == account_unique_id && event_opponent == opponent_unique_id
                    && event_card == used_hand_card_id && event_kind == old(
                    self,
                ).catalog.spec_kind_of(used_hand_card_id) && event_list@ == drawn_card_list@)
            },
    {
        let hand_card_kind = self.catalog.get_card_kind(&used_hand_card_id);
        let delivered = self.channel.send(
            NoticeEvent::DrawCardByUsingHandCard {
                account_unique_id,
                opponent_unique_id,
                used_hand_card_id,
                used_hand_card_kind: hand_card_kind,
                drawn_card_list,
            },
        );
        proof {
            if old(self).channel.accepting {
                assert(self.channel.sent@.drop_last() =~= old(self).channel.sent@);
            }
        }
        delivered
    }
}

} // verus!
