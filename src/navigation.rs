//! Stepping an index through a list that is shown one item at a time, and the
//! two views of the card manager.
use vstd::prelude::*;

verus! {

/// The index after a step forward: one more, up to `last`.
pub open spec fn next_index(index: int, last: int) -> int {
    if index < last {
        index + 1
    } else {
        index
    }
}

/// The index after a step back: one less, down to 0.
pub open spec fn prev_index(index: int) -> int {
    if index > 0 {
        index - 1
    } else {
        index
    }
}

/// The index steps of the previous and next buttons.
pub struct Callbacks;

impl Callbacks {
    /// The index after the next button: it moves one forward and stops at
    /// `last`, the index of the last item.
    pub fn next_card_index(index: usize, last: usize) -> (r: usize)
        ensures
            r == next_index(index as int, last as int),
    {
        if index < last {
            index + 1
        } else {
            index
        }
    }

    /// The index after the previous button: it moves one back and stops at 0.
    pub fn prev_card_index(index: usize) -> (r: usize)
        ensures
            r == prev_index(index as int),
    {
        if index > 0 {
            index - 1
        } else {
            index
        }
    }
}

/// What the card manager shows: the form that adds a card, or the cards.
#[derive(Clone, Copy, Debug, PartialEq, Eq, Structural)]
pub enum ManageModeType {
    AddCard,
    ViewCards,
}

impl ManageModeType {
    /// The other view: the switch button goes from one to the other.
    pub fn switched(self) -> (r: ManageModeType)
        ensures
            r == (match self {
                ManageModeType::AddCard => ManageModeType::ViewCards,
                ManageModeType::ViewCards => ManageModeType::AddCard,
            }),
    {
        match self {
            ManageModeType::AddCard => ManageModeType::ViewCards,
            ManageModeType::ViewCards => ManageModeType::AddCard,
        }
    }
}

} // verus!
