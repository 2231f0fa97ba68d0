//! The form state of a card being written: its front and back text.
use vstd::prelude::*;
use std::rc::Rc;

verus! {

/// The text typed so far for a new card.
pub struct NewCardState {
    pub front: Rc<String>,
    pub back: Rc<String>,
}

/// A change to the form.
pub enum NewCardAction {
    SetFront(String),
    SetBack(String),
    ResetCard,
}

impl NewCardState {
    /// An empty form.
    pub fn new() -> (r: NewCardState)
        ensures
            r.front@ == Seq::<char>::empty(),
            r.back@ == Seq::<char>::empty(),
    {
        NewCardState { front: Rc::new(String::new()), back: Rc::new(String::new()) }
    }

    /// The form after an action: `SetFront` and `SetBack` replace one text and
    /// keep the other; `ResetCard` empties both.
    pub fn reduce(&self, action: NewCardAction) -> (r: NewCardState)
        ensures
            match action {
                NewCardAction::SetFront(front) => r.front@ == front@ && r.back@ == self.back@,
                NewCardAction::SetBack(back) => r.front@ == self.front@ && r.back@ == back@,
                NewCardAction::ResetCard => r.front@ == Seq::<char>::empty() && r.back@
                    == Seq::<char>::empty(),
            },
    {
        match action {
            NewCardAction::SetFront(front) => {
                let back: String = (*self.back).clone();
                NewCardState { front: Rc::new(front), back: Rc::new(back) }
            },
            NewCardAction::SetBack(back) => {
                let front: String = (*self.front).clone();
                NewCardState { front: Rc::new(front), back: Rc::new(back) }
            },
            NewCardAction::ResetCard => NewCardState::new(),
        }
    }
}

} // verus!
