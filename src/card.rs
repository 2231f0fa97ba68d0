//! The card model: a flashcard with its review metadata, the side shown while
//! studying it, and the request shapes that carry cards and ratings.
use vstd::prelude::*;
use crate::timestamp::{
    instant_text, parse_instant, rfc3339_instant, rfc3339_text, valid_instant,
};

verus! {

/// The smallest ease factor, in tenths (1.0).
pub const MIN_EASE_FACTOR: u8 = 10;

/// The largest ease factor, in tenths (5.0).
pub const MAX_EASE_FACTOR: u8 = 50;

/// The ease factor of a new card, in tenths (2.5).
pub const DEFAULT_EASE_FACTOR: u8 = 25;

/// How far one review moves the ease factor, in tenths (0.5).
pub const EASE_STEP: u8 = 5;

/// Seconds in a day.
pub const DAY_SECONDS: u64 = 86400;

/// The shortest interval, one day, in seconds.
pub const MIN_INTERVAL: u64 = 86400;

/// The longest interval, 36500 days, in seconds.
pub const MAX_INTERVAL: u64 = 3153600000;

/// The difficulty a user reports when reviewing a card.
#[derive(Clone, Copy, Debug, PartialEq, Eq, Structural)]
pub enum CardDifficulty {
    Easy,
    Medium,
    Hard,
}

impl Default for CardDifficulty {
    fn default() -> (r: CardDifficulty)
        ensures
            r == CardDifficulty::Medium,
    {
        CardDifficulty::Medium
    }
}

/// The body of a review request.
#[derive(Clone, Copy, Debug, Default, PartialEq, Eq, Structural)]
pub struct ReviewCardPayload {
    pub difficulty: CardDifficulty,
}

/// The body of a request that creates a card.
#[derive(Clone, Debug, Default, PartialEq)]
pub struct CreateCardPayload {
    pub front: String,
    pub back: String,
}

/// The body of a request that deletes a card.
#[derive(Clone, Copy, Debug, Default, PartialEq, Eq, Structural)]
pub struct DeleteCardPayload {
    pub id: u32,
}

/// A flashcard. The ease factor is kept in tenths (25 stands for 2.5) and the
/// interval in seconds; `next_review` is the RFC 3339 text of the instant the
/// card is next due.
#[derive(Clone, Debug, PartialEq)]
pub struct Card {
    id: u32,
    front: String,
    back: String,
    ease_factor: u8,
    interval: u64,
    next_review: String,
}

/// What a card holds, as mathematical values.
pub struct CardView {
    pub id: u32,
    pub front: Seq<char>,
    pub back: Seq<char>,
    pub ease_factor: u8,
    pub interval: u64,
    pub next_review: Seq<char>,
}

impl CardView {
    /// The ease factor and the interval lie within their bounds.
    pub open spec fn wf(self) -> bool {
        &&& MIN_EASE_FACTOR <= self.ease_factor <= MAX_EASE_FACTOR
        &&& MIN_INTERVAL <= self.interval <= MAX_INTERVAL
    }
}

impl View for Card {
    type V = CardView;

    closed spec fn view(&self) -> CardView {
        CardView {
            id: self.id,
            front: self.front@,
            back: self.back@,
            ease_factor: self.ease_factor,
            interval: self.interval,
            next_review: self.next_review@,
        }
    }
}

/// Whether a card whose next review is the text `next_review` is due at `now`:
/// the text must read as an instant before `now`. A text that does not read
/// leaves the card not due.
pub open spec fn due_at(next_review: Seq<char>, now: i64) -> bool {
    instant_is_due(rfc3339_instant(next_review), now)
}

/// Whether a review scheduled for `review_at` (`None`: unknown) is due at `now`.
pub open spec fn instant_is_due(review_at: Option<i64>, now: i64) -> bool {
    match review_at {
        Some(t) => t < now,
        None => false,
    }
}

/// Decides whether a review scheduled for `review_at` is due at `now`; an
/// unknown instant is never due.
pub fn review_instant_is_due(review_at: Option<i64>, now: i64) -> (r: bool)
    ensures
        r == instant_is_due(review_at, now),
{
    match review_at {
        Some(t) => t < now,
        None => false,
    }
}

impl Card {
    /// A new card created at the instant `now`: the default ease factor, an
    /// interval of one day, and its next review at `now` (so it is not due at
    /// `now` itself).
    pub fn new(id: u32, front: String, back: String, now: i64) -> (r: Card)
        requires
            valid_instant(now as int),
        ensures
            r@.id == id,
            r@.front == front@,
            r@.back == back@,
            r@.ease_factor == DEFAULT_EASE_FACTOR,
            r@.interval == MIN_INTERVAL,
            r@.next_review == rfc3339_text(now),
            rfc3339_instant(r@.next_review) == Some(now),
            r@.wf(),
    {
        Card {
            id,
            front,
            back,
            ease_factor: DEFAULT_EASE_FACTOR,
            interval: MIN_INTERVAL,
            next_review: instant_text(now),
        }
    }

    /// A card with every field given, as a store reads it back.
    pub fn from_parts(
        id: u32,
        front: String,
        back: String,
        ease_factor: u8,
        interval: u64,
        next_review: String,
    ) -> (r: Card)
        ensures
            r@ == (CardView {
                id,
                front: front@,
                back: back@,
                ease_factor,
                interval,
                next_review: next_review@,
            }),
    {
        Card { id, front, back, ease_factor, interval, next_review }
    }

    pub fn id(&self) -> (r: &u32)
        ensures
            *r == self@.id,
    {
        &self.id
    }

    pub fn front(&self) -> (r: &str)
        ensures
            r@ == self@.front,
    {
        self.front.as_str()
    }

    pub fn back(&self) -> (r: &str)
        ensures
            r@ == self@.back,
    {
        self.back.as_str()
    }

    pub fn next_review(&self) -> (r: &str)
        ensures
            r@ == self@.next_review,
    {
        self.next_review.as_str()
    }

    /// The ease factor, in tenths.
    pub fn ease_factor(&self) -> (r: &u8)
        ensures
            *r == self@.ease_factor,
    {
        &self.ease_factor
    }

    /// The interval, in seconds.
    pub fn interval(&self) -> (r: &u64)
        ensures
            *r == self@.interval,
    {
        &self.interval
    }

    pub fn set_front(&mut self, front: &str)
        ensures
            final(self)@ == (CardView { front: front@, ..old(self)@ }),
    {
        self.front = front.to_owned();
    }

    pub fn set_back(&mut self, back: &str)
        ensures
            final(self)@ == (CardView { back: back@, ..old(self)@ }),
    {
        self.back = back.to_owned();
    }

    pub fn set_next_review(&mut self, next_review: &str)
        ensures
            final(self)@ == (CardView { next_review: next_review@, ..old(self)@ }),
    {
        self.next_review = next_review.to_owned();
    }

    /// Sets the ease factor, in tenths, within its bounds.
    pub fn set_ease_factor(&mut self, ease_factor: u8)
        requires
            MIN_EASE_FACTOR <= ease_factor <= MAX_EASE_FACTOR,
        ensures
            final(self)@ == (CardView { ease_factor, ..old(self)@ }),
    {
        self.ease_factor = ease_factor;
    }

    /// Sets the interval, in seconds, within its bounds.
    pub fn set_interval(&mut self, interval: u64)
        requires
            MIN_INTERVAL <= interval <= MAX_INTERVAL,
        ensures
            final(self)@ == (CardView { interval, ..old(self)@ }),
    {
        self.interval = interval;
    }

    /// Two cards are the same entity when their ids match, whatever their
    /// content and schedule.
    pub fn same_card(&self, other: &Card) -> (r: bool)
        ensures
            r == (self@.id == other@.id),
    {
        self.id == other.id
    }

    /// Whether the card is due at `now`: its next review reads as an instant
    /// before `now`. A next review that does not read as an RFC 3339 instant
    /// (an empty one included) leaves the card not due.
    pub fn needs_review(&self, now: i64) -> (r: bool)
        ensures
            r == due_at(self@.next_review, now),
            self@.next_review.len() == 0 ==> !r,
    {
        review_instant_is_due(parse_instant(self.next_review.as_str()), now)
    }
}

/// The face of a card that is shown.
#[derive(Clone, Copy, Debug, PartialEq, Eq, Structural)]
pub enum CardSide {
    Front,
    Back,
}

impl Default for CardSide {
    fn default() -> (r: CardSide)
        ensures
            r == CardSide::Front,
    {
        CardSide::Front
    }
}

/// The other face.
pub open spec fn flipped(side: CardSide) -> CardSide {
    match side {
        CardSide::Front => CardSide::Back,
        CardSide::Back => CardSide::Front,
    }
}

/// Turning a card over twice shows the face it showed before.
pub proof fn lemma_flip_twice(side: CardSide)
    ensures
        flipped(flipped(side)) == side,
{
}

/// A card whose next review does not read as an instant is due at no time.
pub proof fn lemma_unreadable_never_due(next_review: Seq<char>, now: i64)
    requires
        rfc3339_instant(next_review) is None,
    ensures
        !due_at(next_review, now),
{
}

/// A card as shown in a study session, with the face that is up.
#[derive(Clone, Debug, PartialEq)]
pub struct CardState {
    card: Card,
    side: CardSide,
}

/// What a card state holds, as mathematical values.
pub struct CardStateView {
    pub card: CardView,
    pub side: CardSide,
}

impl View for CardState {
    type V = CardStateView;

    closed spec fn view(&self) -> CardStateView {
        CardStateView { card: self.card@, side: self.side }
    }
}

impl CardState {
    /// The card with its front up.
    pub fn new(card: Card) -> (r: CardState)
        ensures
            r@ == (CardStateView { card: card@, side: CardSide::Front }),
    {
        CardState { card, side: CardSide::Front }
    }

    /// Turns the card over; the card itself is unchanged.
    pub fn flip_card(&mut self)
        ensures
            final(self)@ == (CardStateView { card: old(self)@.card, side: flipped(old(self)@.side) }),
    {
        self.side = match self.side {
            CardSide::Front => CardSide::Back,
            CardSide::Back => CardSide::Front,
        };
    }

    pub fn side(&self) -> (r: &CardSide)
        ensures
            *r == self@.side,
    {
        &self.side
    }

    pub fn card(&self) -> (r: &Card)
        ensures
            r@ == self@.card,
    {
        &self.card
    }

    pub fn is_front(&self) -> (r: bool)
        ensures
            r == (self@.side == CardSide::Front),
    {
        self.side == CardSide::Front
    }

    pub fn is_back(&self) -> (r: bool)
        ensures
            r == (self@.side == CardSide::Back),
    {
        !self.is_front()
    }
}

} // verus!
