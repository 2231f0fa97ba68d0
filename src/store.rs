//! The rules a card store applies around the scheduler: finding a card by id,
//! reviewing it, and picking the id of a new card.
use vstd::prelude::*;
use crate::card::{due_at, Card, CardDifficulty, CardView};
use crate::schedule::{review, reviewed};
use crate::timestamp::valid_instant;

verus! {

/// A failure of a store operation, reported to the caller.
#[derive(Clone, Copy, Debug, PartialEq, Eq, Structural)]
pub enum StoreError {
    /// No card has this id.
    NotFound(u32),
}

/// The views of a list of cards.
pub open spec fn card_views(cards: Seq<Card>) -> Seq<CardView> {
    cards.map_values(|c: Card| c@)
}

/// Whether `p` is the first position in `cards` of a card with the id `id`.
pub open spec fn is_first_card_with_id(cards: Seq<CardView>, id: u32, p: int) -> bool {
    &&& 0 <= p < cards.len()
    &&& cards[p].id == id
    &&& forall|j: int| 0 <= j < p ==> cards[j].id != id
}

/// Whether some card in `cards` has the id `id`.
pub open spec fn has_card_id(cards: Seq<CardView>, id: u32) -> bool {
    exists|j: int| 0 <= j < cards.len() && cards[j].id == id
}

/// Finds the first position of a card with the id `id`.
pub fn find_card(cards: &Vec<Card>, id: u32) -> (r: Option<usize>)
    ensures
        r matches Some(p) ==> is_first_card_with_id(card_views(cards@), id, p as int),
        r is None ==> !has_card_id(card_views(cards@), id),
{
    let ghost views = card_views(cards@);
    let mut i: usize = 0;
    while i < cards.len()
        invariant
            i <= cards.len(),
            views == card_views(cards@),
            forall|j: int| 0 <= j < i ==> views[j].id != id,
        decreases cards.len() - i,
    {
        if *cards[i].id() == id {
            return Some(i);
        }
        i = i + 1;
    }
    None
}

/// Reviews, at `now`, the card with the id `id`: the result is that card as
/// `review` leaves it (the first one, should two share the id), or
/// `NotFound` when no card has the id. The list itself is not changed; the
/// caller stores the result.
pub fn review_card_by_id(cards: &Vec<Card>, id: u32, rating: CardDifficulty, now: i64) -> (r:
    Result<Card, StoreError>)
    requires
        valid_instant(now as int),
        forall|p: int| #[trigger]
            is_first_card_with_id(card_views(cards@), id, p) ==> card_views(cards@)[p].wf(),
    ensures
        r is Ok <==> has_card_id(card_views(cards@), id),
        r matches Ok(c) ==> exists|p: int|
            is_first_card_with_id(card_views(cards@), id, p) && c@ == reviewed(
                card_views(cards@)[p],
                rating,
                now,
            ),
        r matches Err(e) ==> e == StoreError::NotFound(id),
{
    match find_card(cards, id) {
        Some(p) => {
            let card = review(&cards[p], rating, now);
            assert(is_first_card_with_id(card_views(cards@), id, p as int));
            Ok(card)
        },
        None => Err(StoreError::NotFound(id)),
    }
}

/// The id for a new card: one more than the largest id in `cards`, or 0 when
/// there is none. `None` when the largest id is already `u32::MAX`.
pub fn next_card_id(cards: &Vec<Card>) -> (r: Option<u32>)
    ensures
        r matches Some(id) ==> !has_card_id(card_views(cards@), id),
        r matches Some(id) ==> forall|j: int|
            0 <= j < cards@.len() ==> (#[trigger] cards@[j])@.id < id,
        r is None <==> exists|j: int|
            0 <= j < cards@.len() && (#[trigger] cards@[j])@.id == u32::MAX,
{
    let mut next: u32 = 0;
    let mut i: usize = 0;
    while i < cards.len()
        invariant
            i <= cards.len(),
            forall|j: int| 0 <= j < i ==> (#[trigger] cards@[j])@.id < next,
        decreases cards.len() - i,
    {
        let id = *cards[i].id();
        if id == u32::MAX {
            assert(cards@[i as int]@.id == u32::MAX);
            return None;
        }
        if id >= next {
            next = id + 1;
        }
        i = i + 1;
    }
    proof {
        assert forall|j: int| 0 <= j < cards@.len() implies card_views(cards@)[j].id != next by {
            assert(cards@[j]@.id < next);
        }
    }
    Some(next)
}

/// Which cards a listing returns: all of them, or those due at an instant.
#[derive(Clone, Copy, Debug, PartialEq, Eq, Structural)]
pub struct GetCardFilters {
    from: Option<i64>,
}

impl View for GetCardFilters {
    type V = Option<i64>;

    /// The instant at which a listed card must be due, if any.
    closed spec fn view(&self) -> Option<i64> {
        self.from
    }
}

/// Whether a listing with the filter `from` returns `card`: every card when
/// there is no instant, else a card due at that instant, exactly as
/// `Card::needs_review` decides.
pub open spec fn admits(from: Option<i64>, card: CardView) -> bool {
    match from {
        Some(t) => due_at(card.next_review, t),
        None => true,
    }
}

impl GetCardFilters {
    /// No filter: every card is listed.
    pub fn new() -> (r: GetCardFilters)
        ensures
            r@ is None,
    {
        GetCardFilters { from: None }
    }

    /// Lists only the cards due at `from`.
    pub fn add_from(self, from: i64) -> (r: GetCardFilters)
        ensures
            r@ == Some(from),
    {
        GetCardFilters { from: Some(from) }
    }

    /// The cards the filter admits, in their order.
    pub fn apply(&self, cards: Vec<Card>) -> (r: Vec<Card>)
        ensures
            card_views(r@) == card_views(cards@).filter(|c: CardView| admits(self@, c)),
    {
        let ghost all = card_views(cards@);
        let mut kept: Vec<Card> = Vec::new();
        for card in it: cards.into_iter()
            invariant
                it.seq() == cards@,
                all == card_views(cards@),
                card_views(kept@) == all.take(it.index() as int).filter(
                    |c: CardView| admits(self@, c),
                ),
        {
            let ghost i = it.index() as int;
            let ghost before = all.take(i);
            proof {
                assert(all.take(i + 1).drop_last() =~= before);
                assert(all.take(i + 1).last() == card@);
                reveal(Seq::filter);
            }
            let keep = match self.from {
                Some(t) => card.needs_review(t),
                None => true,
            };
            if keep {
                kept.push(card);
                assert(card_views(kept@) =~= before.filter(|c: CardView| admits(self@, c)).push(
                    card@,
                ));
            }
        }
        proof {
            assert(all.take(all.len() as int) =~= all);
        }
        kept
    }
}

} // verus!
