//! Flashcard study engine: the card model, the review scheduler, the due-card
//! filter and the navigation of a study session, each with its contract.

pub mod timestamp;
pub mod card;
pub mod schedule;
pub mod navigation;
pub mod session;
pub mod new_card;
pub mod deck;
pub mod store;
