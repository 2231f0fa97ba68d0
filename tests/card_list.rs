use flashcards::card::{Card, CardDifficulty, CardSide, CardState};
use flashcards::deck::{position_of_card, FlashCardAction, FlashCardsState};
use flashcards::new_card::{NewCardAction, NewCardState};
use flashcards::store::{find_card, next_card_id, review_card_by_id, GetCardFilters, StoreError};

const NOW: i64 = 1_700_000_000; // 2023-11-14T22:13:20Z

fn card(id: u32, front: &str) -> Card {
    Card::new(id, String::from(front), String::from("back"), NOW)
}

fn deck() -> FlashCardsState {
    FlashCardsState::new().reduce(FlashCardAction::SetData(vec![
        CardState::new(card(1, "one")),
        CardState::new(card(2, "two")),
        CardState::new(card(3, "three")),
    ]))
}

#[test]
fn new_deck_is_empty_and_not_pulled() {
    let state = FlashCardsState::new();
    assert!(state.cards.is_empty());
    assert!(!state.has_pulled);
}

#[test]
fn set_data_replaces_cards() {
    let state = deck();
    assert!(state.has_pulled);
    assert_eq!(state.cards.len(), 3);
    assert_eq!(state.cards[2].card().front(), "three");
}

#[test]
fn add_card_appends_front_up() {
    let state = deck().reduce(FlashCardAction::AddCard(card(4, "four")));
    assert_eq!(state.cards.len(), 4);
    assert_eq!(*state.cards[3].card().id(), 4);
    assert!(state.cards[3].is_front());
}

#[test]
fn update_card_replaces_by_id() {
    let mut state = deck().reduce(FlashCardAction::FlipCard(1));
    assert!(state.cards[1].is_back());
    state = state.reduce(FlashCardAction::UpdateCard(card(2, "deux")));
    assert_eq!(state.cards.len(), 3);
    assert_eq!(state.cards[1].card().front(), "deux");
    assert_eq!(*state.cards[1].side(), CardSide::Front);
    let unchanged = state.reduce(FlashCardAction::UpdateCard(card(9, "nine")));
    assert_eq!(unchanged.cards[0].card().front(), "one");
    assert_eq!(unchanged.cards[1].card().front(), "deux");
    assert_eq!(unchanged.cards[2].card().front(), "three");
}

#[test]
fn remove_card_by_id() {
    let state = deck().reduce(FlashCardAction::RemoveCard(card(2, "anything")));
    assert_eq!(state.cards.len(), 2);
    assert_eq!(*state.cards[0].card().id(), 1);
    assert_eq!(*state.cards[1].card().id(), 3);
    let same = state.reduce(FlashCardAction::RemoveCard(card(2, "again")));
    assert_eq!(same.cards.len(), 2);
}

#[test]
fn flip_card_out_of_range_does_nothing() {
    let state = deck().reduce(FlashCardAction::FlipCard(3));
    assert!(state.cards.iter().all(|s| s.is_front()));
    let state = state.reduce(FlashCardAction::FlipCard(0));
    assert!(state.cards[0].is_back());
}

#[test]
fn position_of_first_matching_id() {
    let cards = vec![
        CardState::new(card(5, "a")),
        CardState::new(card(6, "b")),
        CardState::new(card(6, "c")),
    ];
    assert_eq!(position_of_card(&cards, 6), Some(1));
    assert_eq!(position_of_card(&cards, 7), None);
}

#[test]
fn new_card_form_actions() {
    let form = NewCardState::new();
    assert_eq!(*form.front, "");
    let form = form.reduce(NewCardAction::SetFront(String::from("Q")));
    let form = form.reduce(NewCardAction::SetBack(String::from("A")));
    assert_eq!(*form.front, "Q");
    assert_eq!(*form.back, "A");
    let form = form.reduce(NewCardAction::SetFront(String::from("Q2")));
    assert_eq!(*form.front, "Q2");
    assert_eq!(*form.back, "A");
    let form = form.reduce(NewCardAction::ResetCard);
    assert_eq!(*form.front, "");
    assert_eq!(*form.back, "");
}

#[test]
fn review_by_id_found() {
    let cards = vec![card(1, "one"), card(2, "two")];
    let reviewed = review_card_by_id(&cards, 2, CardDifficulty::Hard, NOW).unwrap();
    assert_eq!(*reviewed.id(), 2);
    assert_eq!(reviewed.front(), "two");
    assert_eq!(*reviewed.ease_factor(), 20);
    assert_eq!(reviewed.next_review(), "2023-11-15T22:13:20Z");
}

#[test]
fn review_by_id_not_found() {
    let cards = vec![card(1, "one")];
    assert_eq!(
        review_card_by_id(&cards, 8, CardDifficulty::Easy, NOW),
        Err(StoreError::NotFound(8))
    );
    assert_eq!(find_card(&cards, 1), Some(0));
    assert_eq!(find_card(&cards, 8), None);
}

#[test]
fn fresh_ids() {
    assert_eq!(next_card_id(&Vec::new()), Some(0));
    assert_eq!(next_card_id(&vec![card(4, "a"), card(1, "b")]), Some(5));
    assert_eq!(next_card_id(&vec![card(u32::MAX, "a")]), None);
}

#[test]
fn listing_filter_keeps_due_cards() {
    let mut late = card(2, "late");
    late.set_next_review("2030-01-01T00:00:00Z");
    let mut broken = card(3, "broken");
    broken.set_next_review("");
    let cards = vec![card(1, "now"), late, broken, card(4, "also now")];
    let due = GetCardFilters::new().add_from(NOW + 1).apply(cards.clone());
    assert_eq!(due.len(), 2);
    assert_eq!(*due[0].id(), 1);
    assert_eq!(*due[1].id(), 4);
    assert!(GetCardFilters::new().add_from(NOW).apply(cards.clone()).is_empty());
    assert_eq!(GetCardFilters::new().apply(cards).len(), 4);
}
