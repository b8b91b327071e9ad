//! The static card dictionaries: kind, grade, race and item effect, keyed by
//! card id. They are built once at startup from plain entries and never
//! mutated at runtime; loading them from their backing file is the caller's
//! concern, not the library's.

use vstd::prelude::*;

use crate::cards::{GRADE_CODE_LEGEND, GRADE_CODE_MYTHICAL, KindEnum, RaceEnumValue};
use crate::effect::EffectSummary;

verus! {

/// The value bound to `key` in an association list, the most recently
/// registered binding winning.
pub open spec fn assoc_value<V>(entries: Seq<(i32, V)>, key: i32) -> Option<V>
    decreases entries.len(),
{
    if entries.len() == 0 {
        None
    } else if entries.last().0 == key {
        Some(entries.last().1)
    } else {
        assoc_value(entries.drop_last(), key)
    }
}

/// Looks `key` up in an association list, preferring the most recent binding.
fn assoc_lookup<V: Copy>(entries: &Vec<(i32, V)>, key: i32) -> (r: Option<V>)
    ensures
        r == assoc_value(entries@, key),
{
    let mut i: usize = entries.len();
    proof {
        assert(entries@.subrange(0, i as int) =~= entries@);
    }
    while i > 0
        invariant
            i <= entries@.len(),
            assoc_value(entries@, key) == assoc_value(entries@.subrange(0, i as int), key),
        decreases i,
    {
        i = i - 1;
        let entry = entries[i];
        proof {
            let prefix = entries@.subrange(0, i as int + 1);
            assert(prefix.last() == entries@[i as int]);
            assert(prefix.drop_last() =~= entries@.subrange(0, i as int));
        }
        if entry.0 == key {
            return Some(entry.1);
        }
    }
    proof {
        assert(entries@.subrange(0, 0) =~= Seq::<(i32, V)>::empty());
    }
    None
}

/// The read-only card dictionaries, keyed by card id.
pub struct CardCatalog {
    pub kinds: Vec<(i32, KindEnum)>,
    pub grades: Vec<(i32, i32)>,
    pub races: Vec<(i32, RaceEnumValue)>,
    pub item_effects: Vec<(i32, EffectSummary)>,
}

impl CardCatalog {
    /// Every registered item effect is meaningful.
    pub open spec fn wf(self) -> bool {
        forall|i: int| 0 <= i < self.item_effects@.len() ==> (#[trigger] self.item_effects@[i]).1.wf()
    }

    pub open spec fn spec_kind_of(self, card_id: i32) -> Option<KindEnum> {
        assoc_value(self.kinds@, card_id)
    }

    pub open spec fn spec_grade_of(self, card_id: i32) -> Option<i32> {
        assoc_value(self.grades@, card_id)
    }

    pub open spec fn spec_race_of(self, card_id: i32) -> Option<RaceEnumValue> {
        assoc_value(self.races@, card_id)
    }

    pub open spec fn spec_item_effect_of(self, card_id: i32) -> Option<EffectSummary> {
        assoc_value(self.item_effects@, card_id)
    }

    /// Whether the dictionary grades the card Legend or Mythical.
    pub open spec fn spec_is_legend_or_mythical(self, card_id: i32) -> bool {
        match self.spec_grade_of(card_id) {
            Some(code) => code == GRADE_CODE_LEGEND || code == GRADE_CODE_MYTHICAL,
            None => false,
        }
    }

    pub fn new() -> (catalog: Self)
        ensures
            catalog.wf(),
            catalog.kinds@ == Seq::<(i32, KindEnum)>::empty(),
            catalog.grades@ == Seq::<(i32, i32)>::empty(),
            catalog.races@ == Seq::<(i32, RaceEnumValue)>::empty(),
            catalog.item_effects@ == Seq::<(i32, EffectSummary)>::empty(),
    {
        CardCatalog {
            kinds: Vec::new(),
            grades: Vec::new(),
            races: Vec::new(),
            item_effects: Vec::new(),
        }
    }

    pub fn register_card_kind(&mut self, card_id: i32, kind: KindEnum)
        requires
            old(self).wf(),
        ensures
            final(self).wf(),
            final(self).spec_kind_of(card_id) == Some(kind),
            forall|other: i32| other != card_id ==> final(self).spec_kind_of(other) == old(self).spec_kind_of(other),
            final(self).kinds@ == old(self).kinds@.push((card_id, kind)),
            final(self).grades@ == old(self).grades@,
            final(self).races@ == old(self).races@,
            final(self).item_effects@ == old(self).item_effects@,
    {
        self.kinds.push((card_id, kind));
        proof {
            assert(self.kinds@.drop_last() =~= old(self).kinds@);
        }
    }

    pub fn register_card_grade(&mut self, card_id: i32, grade_code: i32)
        requires
            old(self).wf(),
        ensures
            final(self).wf(),
            final(self).spec_grade_of(card_id) == Some(grade_code),
            forall|other: i32| other != card_id ==> final(self).spec_grade_of(other) == old(self).spec_grade_of(other),
            final(self).kinds@ == old(self).kinds@,
            final(self).grades@ == old(self).grades@.push((card_id, grade_code)),
            final(self).races@ == old(self).races@,
            final(self).item_effects@ == old(self).item_effects@,
    {
        self.grades.push((card_id, grade_code));
        proof {
            assert(self.grades@.drop_last() =~= old(self).grades@);
        }
    }

    pub fn register_card_race(&mut self, card_id: i32, race: RaceEnumValue)
        requires
            old(self).wf(),
        ensures
            final(self).wf(),
            final(self).spec_race_of(card_id) == Some(race),
            forall|other: i32| other != card_id ==> final(self).spec_race_of(other) == old(self).spec_race_of(other),
            final(self).kinds@ == old(self).kinds@,
            final(self).grades@ == old(self).grades@,
            final(self).races@ == old(self).races@.push((card_id, race)),
            final(self).item_effects@ == old(self).item_effects@,
    {
        self.races.push((card_id, race));
        proof {
            assert(self.races@.drop_last() =~= old(self).races@);
        }
    }

    pub fn register_item_effect(&mut self, card_id: i32, effect: EffectSummary)
        requires
            old(self).wf(),
            effect.wf(),
        ensures
            final(self).wf(),
            final(self).spec_item_effect_of(card_id) == Some(effect),
            forall|other: i32| other != card_id ==> final(self).spec_item_effect_of(other) == old(self).spec_item_effect_of(other),
            final(self).kinds@ == old(self).kinds@,
            final(self).grades@ == old(self).grades@,
            final(self).races@ == old(self).races@,
            final(self).item_effects@ == old(self).item_effects@.push((card_id, effect)),
    {
        self.item_effects.push((card_id, effect));
        proof {
            assert(self.item_effects@.drop_last() =~= old(self).item_effects@);
        }
    }

    pub fn get_card_kind(&self, card_number: &i32) -> (kind: Option<KindEnum>)
        ensures
            kind == self.spec_kind_of(*card_number),
    {
        assoc_lookup(&self.kinds, *card_number)
    }

    pub fn get_card_grade(&self, card_number: &i32) -> (grade: Option<i32>)
        ensures
            grade == self.spec_grade_of(*card_number),
    {
        assoc_lookup(&self.grades, *card_number)
    }

    pub fn get_card_race(&self, card_number: &i32) -> (race: Option<RaceEnumValue>)
        ensures
            race == self.spec_race_of(*card_number),
    {
        assoc_lookup(&self.races, *card_number)
    }

    pub fn summary_item_card(&self, card_number: &i32) -> (summary: Option<EffectSummary>)
        requires
            self.wf(),
        ensures
            summary == self.spec_item_effect_of(*card_number),
            match summary {
                Some(effect) => effect.wf(),
                None => true,
            },
    {
        let found = assoc_lookup(&self.item_effects, *card_number);
        proof {
            if found is Some {
                lemma_assoc_value_is_entry(self.item_effects@, *card_number);
            }
        }
        found
    }

    /// The sub-list of `card_list` graded Legend or Mythical, in order.
    pub open spec fn spec_legend_mythical_list(self, cards: Seq<i32>) -> Seq<i32>
        decreases cards.len(),
    {
        if cards.len() == 0 {
            Seq::empty()
        } else {
            let rest = self.spec_legend_mythical_list(cards.drop_last());
            if self.spec_is_legend_or_mythical(cards.last()) {
                rest.push(cards.last())
            } else {
                rest
            }
        }
    }

    /// Filters a card list down to its Legend- and Mythical-graded members.
    /// Every card in the list must be present in the grade dictionary.
    pub fn get_legend_mythical_card_list(&self, card_list: Vec<i32>) -> (result: Vec<i32>)
        requires
            forall|i: int| 0 <= i < card_list@.len() ==> self.spec_grade_of(#[trigger] card_list@[i]) is Some,
        ensures
            result@ == self.spec_legend_mythical_list(card_list@),
    {
        let mut legend_mythical_card_list: Vec<i32> = Vec::new();
        let mut i: usize = 0;
        let n = card_list.len();
        while i < n
            invariant
                i <= n,
                n == card_list@.len(),
                forall|j: int| 0 <= j < card_list@.len() ==> self.spec_grade_of(#[trigger] card_list@[j]) is Some,
                legend_mythical_card_list@ == self.spec_legend_mythical_list(card_list@.subrange(0, i as int)),
            decreases n - i,
        {
            let card_num = card_list[i];
            let grade = assoc_lookup(&self.grades, card_num);
            proof {
                let prefix = card_list@.subrange(0, i as int + 1);
                assert(prefix.drop_last() =~= card_list@.subrange(0, i as int));
                assert(prefix.last() == card_list@[i as int]);
            }
            match grade {
                Some(code) => {
                    if code == GRADE_CODE_LEGEND || code == GRADE_CODE_MYTHICAL {
                        legend_mythical_card_list.push(card_num);
                    }
                },
                None => {
                    proof {
                        assert(self.spec_grade_of(card_list@[i as int]) is Some);
                        assert(false);
                    }
                },
            }
            i = i + 1;
        }
        proof {
            assert(card_list@.subrange(0, n as int) =~= card_list@);
        }
        legend_mythical_card_list
    }
}

/// An effect found in a coherent catalog is itself meaningful.
pub proof fn lemma_item_effect_wf(catalog: CardCatalog, card_id: i32)
    requires
        catalog.wf(),
        catalog.spec_item_effect_of(card_id) is Some,
    ensures
        catalog.spec_item_effect_of(card_id)->Some_0.wf(),
{
    lemma_assoc_value_is_entry(catalog.item_effects@, card_id);
}

/// A binding found in an association list is one of its entries.
proof fn lemma_assoc_value_is_entry<V>(entries: Seq<(i32, V)>, key: i32)
    requires
        assoc_value(entries, key) is Some,
    ensures
        exists|i: int|
            0 <= i < entries.len() && #[trigger] entries[i] == (key, assoc_value(entries, key)->Some_0),
    decreases entries.len(),
{
    if entries.len() > 0 {
        if entries.last().0 == key {
            assert(entries[entries.len() - 1] == (key, assoc_value(entries, key)->Some_0));
        } else {
            lemma_assoc_value_is_entry(entries.drop_last(), key);
            let i = choose|i: int|
                0 <= i < entries.drop_last().len() && #[trigger] entries.drop_last()[i] == (
                key,
                assoc_value(entries.drop_last(), key)->Some_0,
                );
            assert(entries[i] == entries.drop_last()[i]);
        }
    }
}

} // verus!
