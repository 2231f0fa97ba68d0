//! A study session: the due cards, in the order they were given, and a cursor
//! on the one shown.
use vstd::prelude::*;
use crate::card::{due_at, Card, CardDifficulty, CardSide, CardState, CardStateView};
use crate::navigation::{next_index, prev_index, Callbacks};
use crate::schedule::{review, reviewed};
use crate::timestamp::valid_instant;

verus! {

/// Whether a card state holds a card due at `now`.
pub open spec fn state_is_due(state: CardStateView, now: i64) -> bool {
    due_at(state.card.next_review, now)
}

/// The views of a list of card states.
pub open spec fn state_views(states: Seq<CardState>) -> Seq<CardStateView> {
    states.map_values(|s: CardState| s@)
}

/// The card states of `states` that are due at `now`, in their order.
pub open spec fn due_states(states: Seq<CardStateView>, now: i64) -> Seq<CardStateView> {
    states.filter(|s: CardStateView| state_is_due(s, now))
}

/// A study session over the cards that were due when it began.
pub struct StudySession {
    cards: Vec<CardState>,
    cursor: usize,
}

/// What a session holds: its cards and the index of the one shown.
pub struct StudySessionView {
    pub cards: Seq<CardStateView>,
    pub cursor: int,
}

impl StudySessionView {
    /// The cursor is on a card, or at 0 when there is none.
    pub open spec fn wf(self) -> bool {
        if self.cards.len() == 0 {
            self.cursor == 0
        } else {
            0 <= self.cursor < self.cards.len()
        }
    }
}

impl View for StudySession {
    type V = StudySessionView;

    closed spec fn view(&self) -> StudySessionView {
        StudySessionView { cards: state_views(self.cards@), cursor: self.cursor as int }
    }
}

impl StudySession {
    /// Begins a session at `now` over the given cards that are due then, in
    /// their order, with the cursor on the first.
    pub fn new(cards: Vec<CardState>, now: i64) -> (r: StudySession)
        ensures
            r@.cards == due_states(state_views(cards@), now),
            r@.cursor == 0,
            r@.wf(),
    {
        let ghost all = state_views(cards@);
        let mut due: Vec<CardState> = Vec::new();
        for state in it: cards.into_iter()
            invariant
                it.seq() == cards@,
                all == state_views(cards@),
                state_views(due@) == due_states(all.take(it.index() as int), now),
        {
            let ghost i = it.index() as int;
            let ghost before = all.take(i);
            proof {
                assert(all.take(i + 1).drop_last() =~= before);
                assert(all.take(i + 1).last() == state@);
                reveal(Seq::filter);
            }
            if state.card().needs_review(now) {
                due.push(state);
                assert(state_views(due@) =~= due_states(before, now).push(state@));
            }
        }
        proof {
            assert(all.take(all.len() as int) =~= all);
        }
        StudySession { cards: due, cursor: 0 }
    }

    /// The number of cards in the session.
    pub fn len(&self) -> (r: usize)
        ensures
            r == self@.cards.len(),
    {
        self.cards.len()
    }

    /// Whether there is nothing to review.
    pub fn is_empty(&self) -> (r: bool)
        ensures
            r == (self@.cards.len() == 0),
    {
        self.cards.len() == 0
    }

    /// The index of the card shown.
    pub fn cursor(&self) -> (r: usize)
        ensures
            r == self@.cursor,
    {
        self.cursor
    }

    /// The card shown, or `None` when there is nothing to review.
    pub fn current(&self) -> (r: Option<&CardState>)
        requires
            self@.wf(),
        ensures
            r is None <==> self@.cards.len() == 0,
            r matches Some(s) ==> s@ == self@.cards[self@.cursor],
    {
        if self.cards.len() == 0 {
            None
        } else {
            Some(&self.cards[self.cursor])
        }
    }

    /// Moves to the next card, stopping at the last; no move when there is
    /// nothing to review.
    pub fn next(&mut self)
        requires
            old(self)@.wf(),
        ensures
            final(self)@.cards == old(self)@.cards,
            final(self)@.cursor == cursor_after_next(old(self)@),
            final(self)@.wf(),
    {
        if self.cards.len() > 0 {
            self.cursor = Callbacks::next_card_index(self.cursor, self.cards.len() - 1);
        }
    }

    /// Moves to the previous card, stopping at the first.
    pub fn prev(&mut self)
        requires
            old(self)@.wf(),
        ensures
            final(self)@.cards == old(self)@.cards,
            final(self)@.cursor == prev_index(old(self)@.cursor),
            final(self)@.wf(),
    {
        self.cursor = Callbacks::prev_card_index(self.cursor);
    }

    /// Turns the card shown from its front to its back. Only a card that
    /// shows its front turns; the result says whether it did.
    pub fn flip(&mut self) -> (r: bool)
        requires
            old(self)@.wf(),
        ensures
            r == (old(self)@.cards.len() > 0 && old(self)@.cards[old(self)@.cursor].side
                == CardSide::Front),
            final(self)@.cursor == old(self)@.cursor,
            r ==> final(self)@.cards == old(self)@.cards.update(
                old(self)@.cursor,
                CardStateView { side: CardSide::Back, ..old(self)@.cards[old(self)@.cursor] },
            ),
            !r ==> final(self)@.cards == old(self)@.cards,
            final(self)@.wf(),
    {
        if self.cards.len() == 0 {
            return false;
        }
        let i = self.cursor;
        if !self.cards[i].is_front() {
            return false;
        }
        self.cards[i].flip_card();
        proof {
            assert(state_views(self.cards@) =~= old(self)@.cards.update(
                i as int,
                CardStateView { side: CardSide::Back, ..old(self)@.cards[i as int] },
            ));
        }
        true
    }

    /// Reviews the card shown with a rating at `now`. A rating is taken only
    /// from the back of a card: on the front, or with nothing to review, the
    /// result is `None`. The session itself is not changed, nor the cursor
    /// moved.
    pub fn submit_review(&self, rating: CardDifficulty, now: i64) -> (r: Option<Card>)
        requires
            self@.wf(),
            valid_instant(now as int),
            self@.cards.len() > 0 ==> self@.cards[self@.cursor].card.wf(),
        ensures
            r is Some <==> (self@.cards.len() > 0 && self@.cards[self@.cursor].side
                == CardSide::Back),
            r matches Some(c) ==> c@ == reviewed(self@.cards[self@.cursor].card, rating, now),
    {
        if self.cards.len() == 0 {
            return None;
        }
        let state = &self.cards[self.cursor];
        if state.is_back() {
            Some(review(state.card(), rating, now))
        } else {
            None
        }
    }
}

/// The cursor after `next` on a session in the state `view`.
pub open spec fn cursor_after_next(view: StudySessionView) -> int {
    if view.cards.len() == 0 {
        view.cursor
    } else {
        next_index(view.cursor, view.cards.len() - 1)
    }
}

/// Neither `next` nor `prev` moves the cursor off the cards: it stays within
/// 0 and the last index. On a session of one card neither moves it.
pub proof fn lemma_cursor_stays_on_cards(view: StudySessionView)
    requires
        view.wf(),
    ensures
        view.cards.len() > 0 ==> 0 <= cursor_after_next(view) < view.cards.len(),
        view.cards.len() > 0 ==> 0 <= prev_index(view.cursor) < view.cards.len(),
        view.cards.len() == 1 ==> cursor_after_next(view) == view.cursor,
        view.cards.len() == 1 ==> prev_index(view.cursor) == view.cursor,
{
}

} // verus!
