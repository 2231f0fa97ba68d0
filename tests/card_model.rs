use flashcards::card::{
    review_instant_is_due, Card, CardSide, CardState, DEFAULT_EASE_FACTOR, MIN_INTERVAL,
};
use flashcards::navigation::{Callbacks, ManageModeType};

const NOW: i64 = 1_700_000_000; // 2023-11-14T22:13:20Z

#[test]
fn new_card_defaults() {
    let card = Card::new(3, String::from("front"), String::from("back"), NOW);
    assert_eq!(*card.id(), 3);
    assert_eq!(card.front(), "front");
    assert_eq!(card.back(), "back");
    assert_eq!(*card.ease_factor(), DEFAULT_EASE_FACTOR);
    assert_eq!(*card.ease_factor(), 25);
    assert_eq!(*card.interval(), MIN_INTERVAL);
    assert_eq!(card.next_review(), "2023-11-14T22:13:20Z");
}

#[test]
fn setters_change_one_field() {
    let mut card = Card::new(3, String::from("front"), String::from("back"), NOW);
    card.set_front("new front");
    card.set_back("new back");
    card.set_ease_factor(40);
    card.set_interval(2 * MIN_INTERVAL);
    card.set_next_review("2024-01-01T00:00:00Z");
    assert_eq!(card.front(), "new front");
    assert_eq!(card.back(), "new back");
    assert_eq!(*card.ease_factor(), 40);
    assert_eq!(*card.interval(), 2 * MIN_INTERVAL);
    assert_eq!(card.next_review(), "2024-01-01T00:00:00Z");
    assert_eq!(*card.id(), 3);
}

#[test]
fn due_only_strictly_after_next_review() {
    let card = Card::new(3, String::from("f"), String::from("b"), NOW);
    assert!(!card.needs_review(NOW - 1));
    assert!(!card.needs_review(NOW));
    assert!(card.needs_review(NOW + 1));
}

#[test]
fn due_reads_other_offsets() {
    let mut card = Card::new(3, String::from("f"), String::from("b"), NOW);
    // 23:13:20 at +01:00 is 22:13:20Z.
    card.set_next_review("2023-11-14T23:13:20+01:00");
    assert!(!card.needs_review(NOW));
    assert!(card.needs_review(NOW + 1));
}

#[test]
fn empty_next_review_is_never_due() {
    let mut card = Card::new(3, String::from("f"), String::from("b"), NOW);
    card.set_next_review("");
    assert!(!card.needs_review(NOW));
    assert!(!card.needs_review(i64::MAX));
    assert!(!card.needs_review(NOW));
}

#[test]
fn unreadable_next_review_is_never_due() {
    let mut card = Card::new(3, String::from("f"), String::from("b"), NOW);
    card.set_next_review("next tuesday");
    assert!(!card.needs_review(i64::MAX));
    card.set_next_review("2023-13-40T99:00:00Z");
    assert!(!card.needs_review(i64::MAX));
    assert!(!card.needs_review(NOW));
}

#[test]
fn past_card_needs_review() {
    let mut card = Card::new(3, String::from("f"), String::from("b"), NOW);
    card.set_next_review("2001-01-01T00:00:00Z");
    assert!(card.needs_review(NOW));
}

#[test]
fn due_decision_on_instants() {
    assert!(review_instant_is_due(Some(5), 6));
    assert!(!review_instant_is_due(Some(6), 6));
    assert!(!review_instant_is_due(None, i64::MAX));
}

#[test]
fn identity_is_the_id() {
    let a = Card::new(3, String::from("f"), String::from("b"), NOW);
    let mut b = Card::new(3, String::from("other"), String::from("text"), NOW + 5);
    b.set_ease_factor(10);
    let c = Card::new(4, String::from("f"), String::from("b"), NOW);
    assert!(a.same_card(&b));
    assert!(!a.same_card(&c));
}

#[test]
fn card_state_starts_front_up() {
    let state = CardState::new(Card::new(1, String::from("f"), String::from("b"), NOW));
    assert_eq!(*state.side(), CardSide::Front);
    assert!(state.is_front());
    assert!(!state.is_back());
    assert_eq!(CardSide::default(), CardSide::Front);
}

#[test]
fn flip_twice_restores_side() {
    let mut state = CardState::new(Card::new(1, String::from("f"), String::from("b"), NOW));
    state.flip_card();
    assert_eq!(*state.side(), CardSide::Back);
    assert!(state.is_back());
    state.flip_card();
    assert_eq!(*state.side(), CardSide::Front);
    assert_eq!(state.card().front(), "f");
    assert_eq!(*state.card().id(), 1);
}

#[test]
fn index_steps_saturate() {
    assert_eq!(Callbacks::next_card_index(0, 2), 1);
    assert_eq!(Callbacks::next_card_index(2, 2), 2);
    assert_eq!(Callbacks::prev_card_index(1), 0);
    assert_eq!(Callbacks::prev_card_index(0), 0);
}

#[test]
fn manage_mode_switches() {
    assert_eq!(ManageModeType::AddCard.switched(), ManageModeType::ViewCards);
    assert_eq!(ManageModeType::ViewCards.switched(), ManageModeType::AddCard);
}
