//! The list of cards a client holds, and the actions that change it.
use vstd::prelude::*;
use crate::card::{flipped, Card, CardSide, CardState, CardStateView};
use crate::session::state_views;

verus! {

/// Whether `p` is the first position in `states` of a card with the id `id`.
pub open spec fn is_first_with_id(states: Seq<CardStateView>, id: u32, p: int) -> bool {
    &&& 0 <= p < states.len()
    &&& states[p].card.id == id
    &&& forall|j: int| 0 <= j < p ==> states[j].card.id != id
}

/// Whether some card in `states` has the id `id`.
pub open spec fn holds_id(states: Seq<CardStateView>, id: u32) -> bool {
    exists|j: int| 0 <= j < states.len() && states[j].card.id == id
}

/// The first position of a card with the id `id`, if there is one.
pub open spec fn first_with_id(states: Seq<CardStateView>, id: u32) -> Option<int> {
    if holds_id(states, id) {
        Some(choose|p: int| is_first_with_id(states, id, p))
    } else {
        None
    }
}

/// The card states after an action: `SetData` replaces them all; `FlipCard`
/// turns over the card at an index (none if the index is past the end);
/// `AddCard` appends a card, front up; `UpdateCard` puts a card, front up, in
/// place of the first with its id, and `RemoveCard` removes that first one
/// (neither changes anything when no card has the id).
pub open spec fn after_action(states: Seq<CardStateView>, action: FlashCardAction) -> Seq<
    CardStateView,
> {
    match action {
        FlashCardAction::SetData(cards) => state_views(cards@),
        FlashCardAction::FlipCard(i) => {
            if i < states.len() {
                states.update(
                    i as int,
                    CardStateView { card: states[i as int].card, side: flipped(states[i as int].side) },
                )
            } else {
                states
            }
        },
        FlashCardAction::AddCard(card) => states.push(
            CardStateView { card: card@, side: CardSide::Front },
        ),
        FlashCardAction::UpdateCard(card) => match first_with_id(states, card@.id) {
            Some(p) => states.update(p, CardStateView { card: card@, side: CardSide::Front }),
            None => states,
        },
        FlashCardAction::RemoveCard(card) => match first_with_id(states, card@.id) {
            Some(p) => states.remove(p),
            None => states,
        },
    }
}

/// The first position of a card with the id `id` has no other value.
proof fn lemma_first_with_id_is_unique(states: Seq<CardStateView>, id: u32, p: int)
    requires
        is_first_with_id(states, id, p),
    ensures
        first_with_id(states, id) == Some(p),
{
    assert(holds_id(states, id));
    let q = choose|q: int| is_first_with_id(states, id, q);
    assert(is_first_with_id(states, id, q));
    if q < p {
        assert(states[q].card.id != id);
    } else if p < q {
        assert(states[p].card.id != id);
    }
}

/// Finds the first position of a card with the id `id`.
pub fn position_of_card(cards: &Vec<CardState>, id: u32) -> (r: Option<usize>)
    ensures
        r matches Some(p) ==> is_first_with_id(state_views(cards@), id, p as int),
        r is None ==> !holds_id(state_views(cards@), id),
        r matches Some(p) ==> first_with_id(state_views(cards@), id) == Some(p as int),
        r is None ==> first_with_id(state_views(cards@), id) is None,
{
    let ghost views = state_views(cards@);
    let mut i: usize = 0;
    while i < cards.len()
        invariant
            i <= cards.len(),
            views == state_views(cards@),
            forall|j: int| 0 <= j < i ==> views[j].card.id != id,
        decreases cards.len() - i,
    {
        if *cards[i].card().id() == id {
            proof {
                lemma_first_with_id_is_unique(views, id, i as int);
            }
            return Some(i);
        }
        i = i + 1;
    }
    None
}

/// The cards a client holds, and whether they have been fetched yet.
pub struct FlashCardsState {
    pub cards: Vec<CardState>,
    pub has_pulled: bool,
}

/// A change to the cards a client holds.
pub enum FlashCardAction {
    SetData(Vec<CardState>),
    FlipCard(usize),
    AddCard(Card),
    UpdateCard(Card),
    RemoveCard(Card),
}

impl FlashCardsState {
    /// No cards, not yet fetched.
    pub fn new() -> (r: FlashCardsState)
        ensures
            r.cards@.len() == 0,
            !r.has_pulled,
    {
        FlashCardsState { cards: Vec::new(), has_pulled: false }
    }

    /// The state after an action (see `after_action`); every action marks the
    /// cards as fetched.
    pub fn reduce(self, action: FlashCardAction) -> (r: FlashCardsState)
        ensures
            state_views(r.cards@) == after_action(state_views(self.cards@), action),
            r.has_pulled,
    {
        let ghost before = state_views(self.cards@);
        let mut cards = self.cards;
        match action {
            FlashCardAction::SetData(data) => {
                cards = data;
            },
            FlashCardAction::FlipCard(index) => {
                if index < cards.len() {
                    cards[index].flip_card();
                    assert(state_views(cards@) =~= after_action(before, action));
                }
            },
            FlashCardAction::AddCard(card) => {
                cards.push(CardState::new(card));
                assert(state_views(cards@) =~= after_action(before, action));
            },
            FlashCardAction::UpdateCard(card) => {
                match position_of_card(&cards, *card.id()) {
                    Some(p) => {
                        cards.set(p, CardState::new(card));
                        assert(state_views(cards@) =~= after_action(before, action));
                    },
                    None => {},
                }
            },
            FlashCardAction::RemoveCard(card) => {
                match position_of_card(&cards, *card.id()) {
                    Some(p) => {
                        cards.remove(p);
                        assert(state_views(cards@) =~= after_action(before, action));
                    },
                    None => {},
                }
            },
        }
        FlashCardsState { cards, has_pulled: true }
    }
}

} // verus!
