//! Deck responses for the opening-hand redraw: what was redrawn and what
//! remains of the shuffled deck, and its conversion into the mulligan
//! response shown to the client.

use vstd::prelude::*;

verus! {

/// Copies a card list.
fn copy_card_list(cards: &Vec<i32>) -> (copy: Vec<i32>)
    ensures
        copy@ == cards@,
{
    let mut copy: Vec<i32> = Vec::new();
    let n = cards.len();
    let mut i: usize = 0;
    while i < n
        invariant
            i <= n,
            n == cards@.len(),
            copy@ == cards@.subrange(0, i as int),
        decreases n - i,
    {
        copy.push(cards[i]);
        proof {
            assert(copy@ =~= cards@.subrange(0, i as int + 1));
        }
        i = i + 1;
    }
    proof {
        assert(cards@.subrange(0, n as int) =~= cards@);
    }
    copy
}

/// The outcome of redrawing the opening hand: the cards drawn anew and the
/// deck that remains after the shuffle.
#[derive(Debug, Clone)]
pub struct GameDeckCardRedrawResponse {
    pub redrawn_card_list: Vec<i32>,
    pub remaining_shuffled_deck: Vec<i32>,
}

impl GameDeckCardRedrawResponse {
    pub fn new(redrawn_card_list: Vec<i32>, remaining_shuffled_deck: Vec<i32>) -> (response: Self)
        ensures
            response.spec_redrawn_card_list() == redrawn_card_list@,
            response.spec_remaining_shuffled_deck() == remaining_shuffled_deck@,
    {
        GameDeckCardRedrawResponse { redrawn_card_list, remaining_shuffled_deck }
    }

    pub open spec fn spec_redrawn_card_list(self) -> Seq<i32> {
        self.redrawn_card_list@
    }

    pub open spec fn spec_remaining_shuffled_deck(self) -> Seq<i32> {
        self.remaining_shuffled_deck@
    }

    /// Repackages the redraw outcome as the mulligan response form.
    pub fn to_change_first_hand_response_form(&self) -> (form: MulliganResponseForm)
        ensures
            form.spec_redrawn_card_list() == self.spec_redrawn_card_list(),
            form.spec_remaining_shuffled_deck() == self.spec_remaining_shuffled_deck(),
    {
        MulliganResponseForm::new(
            copy_card_list(&self.redrawn_card_list),
            copy_card_list(&self.remaining_shuffled_deck),
        )
    }
}

/// The mulligan response shown to the client after the opening-hand redraw.
#[derive(Debug, Clone)]
pub struct MulliganResponseForm {
    pub redrawn_card_list: Vec<i32>,
    pub remaining_shuffled_deck: Vec<i32>,
}

impl MulliganResponseForm {
    pub fn new(redrawn_card_list: Vec<i32>, remaining_shuffled_deck: Vec<i32>) -> (form: Self)
        ensures
            form.spec_redrawn_card_list() == redrawn_card_list@,
            form.spec_remaining_shuffled_deck() == remaining_shuffled_deck@,
    {
        MulliganResponseForm { redrawn_card_list, remaining_shuffled_deck }
    }

    pub open spec fn spec_redrawn_card_list(self) -> Seq<i32> {
        self.redrawn_card_list@
    }

    pub open spec fn spec_remaining_shuffled_deck(self) -> Seq<i32> {
        self.remaining_shuffled_deck@
    }

    /// The cards drawn anew.
    pub fn get_redrawn_card_list(&self) -> (cards: &Vec<i32>)
        ensures
            cards@ == self.spec_redrawn_card_list(),
    {
        &self.redrawn_card_list
    }

    /// What remains of the shuffled deck.
    pub fn get_remaining_shuffled_deck(&self) -> (cards: &Vec<i32>)
        ensures
            cards@ == self.spec_remaining_shuffled_deck(),
    {
        &self.remaining_shuffled_deck
    }
}

} // verus!
