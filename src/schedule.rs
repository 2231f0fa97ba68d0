//! The review scheduler: how a difficulty rating moves a card's ease factor
//! and interval, and when the card is next due.
use vstd::prelude::*;
use crate::card::{
    due_at, Card, CardDifficulty, CardView, EASE_STEP, MAX_EASE_FACTOR, MAX_INTERVAL, MIN_EASE_FACTOR,
    MIN_INTERVAL,
};
use crate::timestamp::{instant_text, rfc3339_instant, rfc3339_text, valid_instant, LATEST_WRITTEN_INSTANT};

verus! {

/// The ease factor (tenths) after a review: up a step, to at most 5.0, on
/// `Easy` and `Medium`; down a step, to at least 1.0, on `Hard`.
pub open spec fn next_ease_factor(ease_factor: u8, rating: CardDifficulty) -> int {
    match rating {
        CardDifficulty::Easy | CardDifficulty::Medium => {
            if ease_factor + EASE_STEP > MAX_EASE_FACTOR {
                MAX_EASE_FACTOR as int
            } else {
                ease_factor + EASE_STEP
            }
        },
        CardDifficulty::Hard => {
            if ease_factor - EASE_STEP < MIN_EASE_FACTOR {
                MIN_EASE_FACTOR as int
            } else {
                ease_factor - EASE_STEP
            }
        },
    }
}

/// The interval after an `Easy` review: the interval times the ease factor
/// it had before, rounded down to a whole second, and at most `MAX_INTERVAL`.
pub open spec fn stretched_interval(interval: u64, ease_factor: u8) -> int {
    let product = interval * ease_factor / 10;
    if product > MAX_INTERVAL {
        MAX_INTERVAL as int
    } else {
        product
    }
}

/// The interval (seconds) after a review: stretched by the ease factor on
/// `Easy`, unchanged on `Medium`, back to one day on `Hard`.
pub open spec fn next_interval(interval: u64, ease_factor: u8, rating: CardDifficulty) -> int {
    match rating {
        CardDifficulty::Easy => stretched_interval(interval, ease_factor),
        CardDifficulty::Medium => interval as int,
        CardDifficulty::Hard => MIN_INTERVAL as int,
    }
}

/// The card after a review at `now`: its identity and content as before, its
/// ease factor and interval moved by the rating, and its next review one
/// interval after `now`.
pub open spec fn reviewed(card: CardView, rating: CardDifficulty, now: i64) -> CardView {
    let interval = next_interval(card.interval, card.ease_factor, rating);
    CardView {
        id: card.id,
        front: card.front,
        back: card.back,
        ease_factor: next_ease_factor(card.ease_factor, rating) as u8,
        interval: interval as u64,
        next_review: rfc3339_text((now + interval) as i64),
    }
}

/// An interval stretched by an ease factor of at least 1.0 does not shrink.
proof fn lemma_stretch_does_not_shrink(interval: u64, ease_factor: u8)
    requires
        MIN_INTERVAL <= interval <= MAX_INTERVAL,
        MIN_EASE_FACTOR <= ease_factor <= MAX_EASE_FACTOR,
    ensures
        interval <= stretched_interval(interval, ease_factor) <= MAX_INTERVAL,
{
    assert(interval * ease_factor >= interval * 10) by (nonlinear_arith)
        requires
            ease_factor >= 10,
    ;
}

/// Computes the new ease factor (tenths) for a rating.
pub fn updated_ease_factor(ease_factor: u8, rating: CardDifficulty) -> (r: u8)
    requires
        MIN_EASE_FACTOR <= ease_factor <= MAX_EASE_FACTOR,
    ensures
        r == next_ease_factor(ease_factor, rating),
{
    match rating {
        CardDifficulty::Easy | CardDifficulty::Medium => {
            if ease_factor + EASE_STEP > MAX_EASE_FACTOR {
                MAX_EASE_FACTOR
            } else {
                ease_factor + EASE_STEP
            }
        },
        CardDifficulty::Hard => {
            if ease_factor - EASE_STEP < MIN_EASE_FACTOR {
                MIN_EASE_FACTOR
            } else {
                ease_factor - EASE_STEP
            }
        },
    }
}

/// Computes the new interval (seconds) for a rating.
pub fn updated_interval(interval: u64, ease_factor: u8, rating: CardDifficulty) -> (r: u64)
    requires
        MIN_INTERVAL <= interval <= MAX_INTERVAL,
        MIN_EASE_FACTOR <= ease_factor <= MAX_EASE_FACTOR,
    ensures
        r == next_interval(interval, ease_factor, rating),
{
    match rating {
        CardDifficulty::Easy => {
            assert(interval * ease_factor <= MAX_INTERVAL * MAX_EASE_FACTOR) by (nonlinear_arith)
                requires
                    interval <= MAX_INTERVAL,
                    ease_factor <= MAX_EASE_FACTOR,
            ;
            let product = interval * (ease_factor as u64) / 10;
            if product > MAX_INTERVAL {
                MAX_INTERVAL
            } else {
                product
            }
        },
        CardDifficulty::Medium => interval,
        CardDifficulty::Hard => MIN_INTERVAL,
    }
}

/// Reviews a card at the instant `now` with a rating: the result is the same
/// card (id, front and back) with its ease factor and interval moved by the
/// rating and its next review set to `now` plus the new interval. An `Easy`
/// interval is rounded down to a whole second and held to `MAX_INTERVAL`.
/// The next review reads back as that instant, which lies strictly after
/// `now`: the card is due exactly at the instants after it.
pub fn review(card: &Card, rating: CardDifficulty, now: i64) -> (r: Card)
    requires
        card@.wf(),
        valid_instant(now as int),
    ensures
        r@ == reviewed(card@, rating, now),
        r@.wf(),
        now < now + r@.interval,
        rfc3339_instant(r@.next_review) == Some((now + r@.interval) as i64),
        forall|u: i64| #[trigger] due_at(r@.next_review, u) == (now + r@.interval < u),
        !due_at(r@.next_review, now),
{
    proof {
        lemma_stretch_does_not_shrink(card@.interval, card@.ease_factor);
    }
    let ease_factor = updated_ease_factor(*card.ease_factor(), rating);
    let interval = updated_interval(*card.interval(), *card.ease_factor(), rating);
    let next_review = instant_text(now + interval as i64);
    Card::from_parts(
        *card.id(),
        card.front().to_owned(),
        card.back().to_owned(),
        ease_factor,
        interval,
        next_review,
    )
}

/// An `Easy` review never lowers the ease factor and leaves it at most 5.0; a
/// `Hard` review never raises it and leaves it at least 1.0.
pub proof fn lemma_ease_factor_bounds(card: CardView, now: i64)
    requires
        card.wf(),
    ensures
        reviewed(card, CardDifficulty::Easy, now).ease_factor >= card.ease_factor,
        reviewed(card, CardDifficulty::Easy, now).ease_factor <= MAX_EASE_FACTOR,
        reviewed(card, CardDifficulty::Hard, now).ease_factor <= card.ease_factor,
        reviewed(card, CardDifficulty::Hard, now).ease_factor >= MIN_EASE_FACTOR,
{
}

/// A `Hard` review resets the interval to one day, whatever it was.
pub proof fn lemma_hard_resets_interval(card: CardView, now: i64)
    ensures
        reviewed(card, CardDifficulty::Hard, now).interval == MIN_INTERVAL,
{
}

/// A `Medium` review leaves the interval unchanged.
pub proof fn lemma_medium_keeps_interval(card: CardView, now: i64)
    ensures
        reviewed(card, CardDifficulty::Medium, now).interval == card.interval,
{
}

/// An `Easy` review multiplies the interval by the ease factor the card had
/// before the review (in tenths, so the product is divided by ten and rounded
/// down to a whole second), as long as the product stays within the longest
/// interval.
pub proof fn lemma_easy_stretches_interval(card: CardView, now: i64)
    requires
        card.wf(),
        card.interval * card.ease_factor / 10 <= MAX_INTERVAL,
    ensures
        reviewed(card, CardDifficulty::Easy, now).interval == card.interval * card.ease_factor
            / 10,
{
    assert(card.interval * card.ease_factor <= MAX_INTERVAL * MAX_EASE_FACTOR) by (nonlinear_arith)
        requires
            card.interval <= MAX_INTERVAL,
            card.ease_factor <= MAX_EASE_FACTOR,
    ;
}

/// Whatever the rating, a review at `now` schedules the card strictly after
/// `now`: its next review is the text of the instant `now` plus the new
/// interval, and that interval is at least a day.
pub proof fn lemma_next_review_in_future(card: CardView, rating: CardDifficulty, now: i64)
    requires
        card.wf(),
        valid_instant(now as int),
    ensures
        ({
            let after = reviewed(card, rating, now);
            &&& after.interval >= MIN_INTERVAL
            &&& now < now + after.interval <= LATEST_WRITTEN_INSTANT
            &&& after.next_review == rfc3339_text((now + after.interval) as i64)
        }),
{
    lemma_stretch_does_not_shrink(card.interval, card.ease_factor);
}

} // verus!
