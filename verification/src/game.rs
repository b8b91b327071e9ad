//! The per-match aggregate: both players' authoritative state, the static
//! card dictionaries, the session table, the round counter and the
//! notification channel, under one lock in the serving layer. Every helper
//! here is one step of the action-resolution pipeline, addressed by account
//! id; a step against an id that belongs to neither player changes nothing.

use vstd::prelude::*;

use crate::cards::{GRADE_CODE_MYTHICAL, KindEnum};
use crate::catalog::CardCatalog;
use crate::effect::EffectSummary;
use crate::notice::{NoticeChannel, NoticeEvent};
use crate::session::{AccountSessionStore, INVALID_SESSION_SENTINEL};
use crate::state::{remove_first, AccountState, FieldUnit, spec_damaged_unit, ABSENT_UNIT_SENTINEL};

verus! {

/// The first round in which a Mythical-grade card may be used.
pub const MYTHICAL_USABLE_FROM_ROUND: i32 = 4;

/// The id the opponent lookup reports for an account that is not playing in
/// this match.
pub const NO_OPPONENT_SENTINEL: i32 = -1;

/// The whole state of one running match.
pub struct GameState {
    pub catalog: CardCatalog,
    pub sessions: AccountSessionStore,
    pub player_one: AccountState,
    pub player_two: AccountState,
    pub round: i32,
    pub channel: NoticeChannel,
}

/// Nothing observable about the account differs between `pre` and `post`.
pub open spec fn spec_account_unchanged(pre: AccountState, post: AccountState) -> bool {
    &&& post.account_id == pre.account_id
    &&& post.hand@ == pre.hand@
    &&& post.field@ == pre.field@
    &&& post.tomb@ == pre.tomb@
    &&& post.field_energy == pre.field_energy
}

/// Neither player's state differs between `pre` and `post`.
pub open spec fn spec_players_unchanged(pre: GameState, post: GameState) -> bool {
    &&& spec_account_unchanged(pre.player_one, post.player_one)
    &&& spec_account_unchanged(pre.player_two, post.player_two)
}

/// The dictionaries, the session table and the round differ in nothing.
pub open spec fn spec_non_players_unchanged(pre: GameState, post: GameState) -> bool {
    &&& post.catalog == pre.catalog
    &&& post.sessions == pre.sessions
    &&& post.round == pre.round
}

/// Nothing was sent and the channel is as it was.
pub open spec fn spec_channel_unchanged(pre: GameState, post: GameState) -> bool {
    &&& post.channel.accepting == pre.channel.accepting
    &&& post.channel.sent@ == pre.channel.sent@
}

/// Exactly `event` was handed to the channel: it is recorded when the
/// channel accepts, and nothing is recorded when it does not.
pub open spec fn spec_channel_sent(pre: GameState, post: GameState, event: NoticeEvent) -> bool {
    &&& post.channel.accepting == pre.channel.accepting
    &&& pre.channel.accepting ==> post.channel.sent@ == pre.channel.sent@.push(event)
    &&& !pre.channel.accepting ==> post.channel.sent@ == pre.channel.sent@
}

/// Nothing about the match differs between `pre` and `post`.
pub open spec fn spec_state_unchanged(pre: GameState, post: GameState) -> bool {
    &&& spec_players_unchanged(pre, post)
    &&& spec_non_players_unchanged(pre, post)
    &&& spec_channel_unchanged(pre, post)
}

/// Both players still answer to their ids.
pub open spec fn spec_player_ids_unchanged(pre: GameState, post: GameState) -> bool {
    &&& post.player_one.account_id == pre.player_one.account_id
    &&& post.player_two.account_id == pre.player_two.account_id
}

/// Every player other than `account_id` is untouched.
pub open spec fn spec_other_players_unchanged(pre: GameState, post: GameState, account_id: int) -> bool {
    &&& pre.player_one.account_id != account_id ==> spec_account_unchanged(
        pre.player_one,
        post.player_one,
    )
    &&& pre.player_two.account_id != account_id ==> spec_account_unchanged(
        pre.player_two,
        post.player_two,
    )
}

/// `post` is `pre` after the used card left the hand for the tomb: the first
/// copy of the card moved, and nothing else about the account changed.
pub open spec fn spec_card_spent(pre: AccountState, post: AccountState, card_id: i32) -> bool {
    &&& post.account_id == pre.account_id
    &&& post.hand@ == remove_first(pre.hand@, card_id)
    &&& post.tomb@ == pre.tomb@.push(card_id)
    &&& post.field@ == pre.field@
    &&& post.field_energy == pre.field_energy
}

/// `post` is `pre` with the unit at `index` gone, its slot left empty.
pub open spec fn spec_unit_removed(pre: AccountState, post: AccountState, index: int) -> bool {
    &&& post.account_id == pre.account_id
    &&& post.hand@ == pre.hand@
    &&& post.field@ == pre.field@.update(index, None::<FieldUnit>)
    &&& post.tomb@ == pre.tomb@
    &&& post.field_energy == pre.field_energy
}

/// `post` is `pre` with the unit at `index` damaged: its health fell by
/// `damage`, to no less than zero, and the unit stayed on the field.
pub open spec fn spec_unit_damaged(pre: AccountState, post: AccountState, index: int, damage: int) -> bool {
    &&& post.account_id == pre.account_id
    &&& post.hand@ == pre.hand@
    &&& pre.spec_unit_at(index) is Some
    &&& post.field@ == pre.field@.update(
        index,
        Some(spec_damaged_unit(pre.spec_unit_at(index)->Some_0, damage)),
    )
    &&& post.tomb@ == pre.tomb@
    &&& post.field_energy == pre.field_energy
}

/// `post` is `pre` with `amount` more field energy.
pub open spec fn spec_energy_added(pre: AccountState, post: AccountState, amount: int) -> bool {
    &&& post.account_id == pre.account_id
    &&& post.hand@ == pre.hand@
    &&& post.field@ == pre.field@
    &&& post.tomb@ == pre.tomb@
    &&& post.field_energy == pre.field_energy + amount
}

impl GameState {
    /// The aggregate is coherent: both players are well formed and
    /// distinguishable, the dictionaries are coherent, and the match has
    /// begun.
    pub open spec fn wf(self) -> bool {
        &&& self.catalog.wf()
        &&& self.sessions.wf()
        &&& self.player_one.wf()
        &&& self.player_two.wf()
        &&& self.player_one.account_id != self.player_two.account_id
        &&& self.round >= 1
    }

    /// The player state owned by `account_id`.
    pub open spec fn spec_account_of(self, account_id: int) -> Option<AccountState> {
        if account_id == self.player_one.account_id {
            Some(self.player_one)
        } else if account_id == self.player_two.account_id {
            Some(self.player_two)
        } else {
            None
        }
    }

    /// The paired adversary of `account_id` in this match, or the absence
    /// sentinel for an id that is not playing here.
    pub open spec fn spec_opponent_id_of(self, account_id: int) -> int {
        if account_id == self.player_one.account_id {
            self.player_two.account_id as int
        } else if account_id == self.player_two.account_id {
            self.player_one.account_id as int
        } else {
            NO_OPPONENT_SENTINEL as int
        }
    }

    /// Builds a fresh match between two distinct accounts.
    pub fn new(
        catalog: CardCatalog,
        sessions: AccountSessionStore,
        player_one: AccountState,
        player_two: AccountState,
        round: i32,
    ) -> (game: Self)
        requires
            catalog.wf(),
            sessions.wf(),
            player_one.wf(),
            player_two.wf(),
            player_one.account_id != player_two.account_id,
            round >= 1,
        ensures
            game.wf(),
            game.catalog == catalog,
            game.sessions == sessions,
            game.player_one == player_one,
            game.player_two == player_two,
            game.round == round,
            game.channel.accepting,
            game.channel.sent@ == Seq::<NoticeEvent>::empty(),
    {
        GameState { catalog, sessions, player_one, player_two, round, channel: NoticeChannel::new() }
    }

    /// Answers which account the session token is bound to, or the
    /// invalid-session sentinel. No side effects; callers must test the
    /// sentinel explicitly.
    pub fn is_valid_session(&self, session_id: &String) -> (account_unique_id: i32)
        requires
            self.wf(),
        ensures
            account_unique_id == self.sessions.spec_account_of(session_id@),
            account_unique_id != INVALID_SESSION_SENTINEL ==> account_unique_id >= 1,
    {
        self.sessions.get_account_for_session(session_id)
    }

    /// The possession check: the card is in the claimed account's hand right
    /// now. Failure means a forged or stale request.
    pub fn is_valid_protocol(&self, account_unique_id: i32, card_id: i32) -> (ok: bool)
        requires
            self.wf(),
        ensures
            ok == match self.spec_account_of(account_unique_id as int) {
                Some(account) => account.spec_has_in_hand(card_id),
                None => false,
            },
    {
        if account_unique_id == self.player_one.account_id {
            self.player_one.hand_contains(card_id)
        } else if account_unique_id == self.player_two.account_id {
            self.player_two.hand_contains(card_id)
        } else {
            false
        }
    }

    /// The kind check: the dictionary classifies the card as an item card.
    /// An id the dictionary does not know declines exactly like a wrong
    /// kind.
    pub fn is_it_item_card(&self, card_id: i32) -> (ok: bool)
        requires
            self.wf(),
        ensures
            ok == (self.catalog.spec_kind_of(card_id) == Some(KindEnum::Item)),
    {
        match self.catalog.get_card_kind(&card_id) {
            Some(kind) => kind == KindEnum::Item,
            None => false,
        }
    }

    /// Whether the round gate lets the card be used now: a Mythical-grade
    /// card is usable from round four onward only; every other card always.
    pub open spec fn spec_is_able_to_use(self, card_id: i32) -> bool {
        self.catalog.spec_grade_of(card_id) == Some(GRADE_CODE_MYTHICAL)
            ==> self.round >= MYTHICAL_USABLE_FROM_ROUND
    }

    /// The usability rule, evaluated against the current round.
    pub fn is_able_to_use(&self, _account_unique_id: i32, card_id: i32) -> (ok: bool)
        requires
            self.wf(),
        ensures
            ok == self.spec_is_able_to_use(card_id),
    {
        match self.catalog.get_card_grade(&card_id) {
            Some(grade_code) => {
                if grade_code == GRADE_CODE_MYTHICAL {
                    self.round >= MYTHICAL_USABLE_FROM_ROUND
                } else {
                    true
                }
            },
            None => true,
        }
    }

    /// The effect summary of the item card, from static card data alone.
    pub fn get_summary_of_item_card(&self, card_id: i32) -> (summary: Option<EffectSummary>)
        requires
            self.wf(),
        ensures
            summary == self.catalog.spec_item_effect_of(card_id),
            match summary {
                Some(effect) => effect.wf(),
                None => true,
            },
    {
        self.catalog.summary_item_card(&card_id)
    }

    /// Resolves the paired adversary of the account in this match.
    pub fn find_opponent_by_account_unique_id(&self, account_unique_id: i32) -> (opponent_unique_id: i32)
        requires
            self.wf(),
        ensures
            opponent_unique_id == self.spec_opponent_id_of(account_unique_id as int),
    {
        if account_unique_id == self.player_one.account_id {
            self.player_two.account_id
        } else if account_unique_id == self.player_two.account_id {
            self.player_one.account_id
        } else {
            NO_OPPONENT_SENTINEL
        }
    }

    /// The card id of the unit at the index on the account's field, or the
    /// absence sentinel.
    pub fn find_target_unit_id_by_index(&self, account_unique_id: i32, index: i32) -> (unit_id: i32)
        requires
            self.wf(),
        ensures
            unit_id == match self.spec_account_of(account_unique_id as int) {
                Some(account) => match account.spec_unit_at(index as int) {
                    Some(u) => u.card_id,
                    None => ABSENT_UNIT_SENTINEL,
                },
                None => ABSENT_UNIT_SENTINEL,
            },
    {
        if account_unique_id == self.player_one.account_id {
            self.player_one.find_target_unit_id_by_index(index)
        } else if account_unique_id == self.player_two.account_id {
            self.player_two.find_target_unit_id_by_index(index)
        } else {
            ABSENT_UNIT_SENTINEL
        }
    }

    /// The current health of the unit at the index on the account's field,
    /// or the absence sentinel.
    pub fn get_current_health_point_of_field_unit_by_index(
        &self,
        account_unique_id: i32,
        index: i32,
    ) -> (health: i32)
        requires
            self.wf(),
        ensures
            health == match self.spec_account_of(account_unique_id as int) {
                Some(account) => match account.spec_unit_at(index as int) {
                    Some(u) => u.health,
                    None => ABSENT_UNIT_SENTINEL,
                },
                None => ABSENT_UNIT_SENTINEL,
            },
            health != ABSENT_UNIT_SENTINEL ==> health >= 0,
    {
        if account_unique_id == self.player_one.account_id {
            self.player_one.get_current_health_point_of_field_unit_by_index(index)
        } else if account_unique_id == self.player_two.account_id {
            self.player_two.get_current_health_point_of_field_unit_by_index(index)
        } else {
            ABSENT_UNIT_SENTINEL
        }
    }

    /// Takes the used item card out of the account's hand, answering the
    /// found card id, or the absence sentinel when the account or the card
    /// is not there.
    pub fn use_item_card(&mut self, account_unique_id: i32, item_card_id: i32) -> (found_card_id: i32)
        requires
            old(self).wf(),
            item_card_id >= 0,
        ensures
            final(self).wf(),
            spec_non_players_unchanged(*old(self), *final(self)),
            spec_channel_unchanged(*old(self), *final(self)),
            spec_player_ids_unchanged(*old(self), *final(self)),
            spec_other_players_unchanged(*old(self), *final(self), account_unique_id as int),
            match old(self).spec_account_of(account_unique_id as int) {
                Some(account) => {
                    if account.spec_has_in_hand(item_card_id) {
                        &&& found_card_id == item_card_id
                        &&& final(self).spec_account_of(account_unique_id as int) is Some
                        &&& {
                            let post = final(self).spec_account_of(account_unique_id as int)->Some_0;
                            &&& post.account_id == account.account_id
                            &&& post.hand@ == remove_first(account.hand@, item_card_id)
                            &&& post.field@ == account.field@
                            &&& post.tomb@ == account.tomb@
                            &&& post.field_energy == account.field_energy
                        }
                    } else {
                        found_card_id == ABSENT_UNIT_SENTINEL && spec_players_unchanged(
                            *old(self),
                            *final(self),
                        )
                    }
                },
                None => found_card_id == ABSENT_UNIT_SENTINEL && spec_players_unchanged(
                    *old(self),
                    *final(self),
                ),
            },
    {
        if account_unique_id == self.player_one.account_id {
            if self.player_one.find_and_remove_from_hand(item_card_id) {
                item_card_id
            } else {
                ABSENT_UNIT_SENTINEL
            }
        } else if account_unique_id == self.player_two.account_id {
            if self.player_two.find_and_remove_from_hand(item_card_id) {
                item_card_id
            } else {
                ABSENT_UNIT_SENTINEL
            }
        } else {
            ABSENT_UNIT_SENTINEL
        }
    }

    /// Lays the used card into the account's tomb.
    pub fn place_used_card_to_tomb(&mut self, account_unique_id: i32, used_card_id: i32)
        requires
            old(self).wf(),
        ensures
            final(self).wf(),
            spec_non_players_unchanged(*old(self), *final(self)),
            spec_channel_unchanged(*old(self), *final(self)),
            spec_player_ids_unchanged(*old(self), *final(self)),
            spec_other_players_unchanged(*old(self), *final(self), account_unique_id as int),
            match old(self).spec_account_of(account_unique_id as int) {
                Some(account) => {
                    &&& final(self).spec_account_of(account_unique_id as int) is Some
                    &&& {
                        let post = final(self).spec_account_of(account_unique_id as int)->Some_0;
                        &&& post.account_id == account.account_id
                        &&& post.hand@ == account.hand@
                        &&& post.field@ == account.field@
                        &&& post.tomb@ == account.tomb@.push(used_card_id)
                        &&& post.field_energy == account.field_energy
                    }
                },
                None => spec_players_unchanged(*old(self), *final(self)),
            },
    {
        if account_unique_id == self.player_one.account_id {
            self.player_one.add_used_card_to_tomb(used_card_id);
        } else if account_unique_id == self.player_two.account_id {
            self.player_two.add_used_card_to_tomb(used_card_id);
        }
    }

    /// Removes the account's unit at the index outright; an empty slot, an
    /// out-of-range index or a foreign account changes nothing.
    pub fn apply_instant_death_to_target_unit_index(&mut self, account_unique_id: i32, index: i32)
        requires
            old(self).wf(),
        ensures
            final(self).wf(),
            spec_non_players_unchanged(*old(self), *final(self)),
            spec_channel_unchanged(*old(self), *final(self)),
            spec_player_ids_unchanged(*old(self), *final(self)),
            spec_other_players_unchanged(*old(self), *final(self), account_unique_id as int),
            match old(self).spec_account_of(account_unique_id as int) {
                Some(account) => {
                    if account.spec_unit_at(index as int) is Some {
                        &&& final(self).spec_account_of(account_unique_id as int) is Some
                        &&& spec_unit_removed(
                            account,
                            final(self).spec_account_of(account_unique_id as int)->Some_0,
                            index as int,
                        )
                    } else {
                        spec_players_unchanged(*old(self), *final(self))
                    }
                },
                None => spec_players_unchanged(*old(self), *final(self)),
            },
    {
        if account_unique_id == self.player_one.account_id {
            self.player_one.apply_instant_death_to_target_unit_index(index);
        } else if account_unique_id == self.player_two.account_id {
            self.player_two.apply_instant_death_to_target_unit_index(index);
        }
    }

    /// Applies damage to the account's unit at the index; the unit stays on
    /// the field with its health floored at zero. An empty slot, an
    /// out-of-range index or a foreign account changes nothing.
    pub fn apply_damage_to_target_unit_index(&mut self, account_unique_id: i32, index: i32, damage: i32)
        requires
            old(self).wf(),
            damage >= 0,
        ensures
            final(self).wf(),
            spec_non_players_unchanged(*old(self), *final(self)),
            spec_channel_unchanged(*old(self), *final(self)),
            spec_player_ids_unchanged(*old(self), *final(self)),
            spec_other_players_unchanged(*old(self), *final(self), account_unique_id as int),
            match old(self).spec_account_of(account_unique_id as int) {
                Some(account) => {
                    if account.spec_unit_at(index as int) is Some {
                        &&& final(self).spec_account_of(account_unique_id as int) is Some
                        &&& spec_unit_damaged(
                            account,
                            final(self).spec_account_of(account_unique_id as int)->Some_0,
                            index as int,
                            damage as int,
                        )
                    } else {
                        spec_players_unchanged(*old(self), *final(self))
                    }
                },
                None => spec_players_unchanged(*old(self), *final(self)),
            },
    {
        if account_unique_id == self.player_one.account_id {
            self.player_one.apply_damage_to_target_unit_index(index, damage);
        } else if account_unique_id == self.player_two.account_id {
            self.player_two.apply_damage_to_target_unit_index(index, damage);
        }
    }

    /// Adds the produced amount to the account's field-energy pool,
    /// reporting the store's success flag.
    pub fn add_field_energy_with_amount(&mut self, account_unique_id: i32, amount: i32) -> (ok: bool)
        requires
            old(self).wf(),
            amount >= 0,
        ensures
            final(self).wf(),
            spec_non_players_unchanged(*old(self), *final(self)),
            spec_channel_unchanged(*old(self), *final(self)),
            spec_player_ids_unchanged(*old(self), *final(self)),
            spec_other_players_unchanged(*old(self), *final(self), account_unique_id as int),
            match old(self).spec_account_of(account_unique_id as int) {
                Some(account) => {
                    if account.field_energy + amount <= i32::MAX {
                        &&& ok
                        &&& final(self).spec_account_of(account_unique_id as int) is Some
                        &&& spec_energy_added(
                            account,
                            final(self).spec_account_of(account_unique_id as int)->Some_0,
                            amount as int,
                        )
                    } else {
                        !ok && spec_players_unchanged(*old(self), *final(self))
                    }
                },
                None => !ok && spec_players_unchanged(*old(self), *final(self)),
            },
    {
        if account_unique_id == self.player_one.account_id {
            self.player_one.add_field_energy_with_amount(amount)
        } else if account_unique_id == self.player_two.account_id {
            self.player_two.add_field_energy_with_amount(amount)
        } else {
            false
        }
    }
}

} // verus!
