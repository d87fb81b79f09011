//! What the stages of a tick tell each other.
//!
//! Contacts found at the end of one tick are acted on at the start of the
//! next. They wait in a queue of two slots: the stage that finds contacts
//! writes the current slot, and the stage that acts on them reads the
//! previous one.
use vstd::prelude::*;

verus! {

/// The player touched a hook.
#[derive(Clone, Copy, Debug, PartialEq, Eq, Structural)]
pub struct PlayerHooked {
    pub player_entity: u64,
    pub hook_entity: u64,
}

/// The player ran out of time to eat.
#[derive(Clone, Copy, Debug, PartialEq, Eq, Structural)]
pub struct PlayerStarved {
    pub player_entity: u64,
}

/// The player ran into the hull of a boat.
#[derive(Clone, Copy, Debug, PartialEq, Eq, Structural)]
pub struct PlayerBonked {
    pub player_entity: u64,
    pub boat_entity: u64,
}

/// The player ate a worm.
#[derive(Clone, Copy, Debug, PartialEq, Eq, Structural)]
pub struct PlayerAte {
    pub player_entity: u64,
    pub worm_entity: u64,
}

/// The player started a dash.
#[derive(Clone, Copy, Debug, PartialEq, Eq, Structural)]
pub struct PlayerBoosted {
    pub player: u64,
}

/// The contacts found in one tick, each kind in the order it was found.
#[derive(Debug)]
pub struct ContactEvents {
    pub hooked: Vec<PlayerHooked>,
    pub ate: Vec<PlayerAte>,
    pub bonked: Vec<PlayerBonked>,
}

/// The contacts found in one tick, as sequences.
pub struct ContactEventsView {
    pub hooked: Seq<PlayerHooked>,
    pub ate: Seq<PlayerAte>,
    pub bonked: Seq<PlayerBonked>,
}

impl ContactEventsView {
    /// No contacts.
    pub open spec fn empty() -> ContactEventsView {
        ContactEventsView { hooked: Seq::empty(), ate: Seq::empty(), bonked: Seq::empty() }
    }
}

impl View for ContactEvents {
    type V = ContactEventsView;

    open spec fn view(&self) -> ContactEventsView {
        ContactEventsView { hooked: self.hooked@, ate: self.ate@, bonked: self.bonked@ }
    }
}

impl ContactEvents {
    /// No contacts.
    pub fn new() -> (events: ContactEvents)
        ensures
            events@ == ContactEventsView::empty(),
    {
        ContactEvents { hooked: Vec::new(), ate: Vec::new(), bonked: Vec::new() }
    }
}

/// The queue of two slots through which contacts reach the next tick.
#[derive(Debug)]
pub struct ContactQueue {
    pub current: ContactEvents,
    pub previous: ContactEvents,
}

/// The queue of contacts, as sequences.
pub struct ContactQueueView {
    pub current: ContactEventsView,
    pub previous: ContactEventsView,
}

impl ContactQueueView {
    /// An empty queue.
    pub open spec fn empty() -> ContactQueueView {
        ContactQueueView {
            current: ContactEventsView::empty(),
            previous: ContactEventsView::empty(),
        }
    }

    /// The queue at the start of the next tick: what was written in the
    /// tick before can now be read, and nothing has been written yet.
    pub open spec fn advance(self) -> ContactQueueView {
        ContactQueueView { current: ContactEventsView::empty(), previous: self.current }
    }
}

impl View for ContactQueue {
    type V = ContactQueueView;

    open spec fn view(&self) -> ContactQueueView {
        ContactQueueView { current: self.current@, previous: self.previous@ }
    }
}

impl ContactQueue {
    /// An empty queue.
    pub fn new() -> (queue: ContactQueue)
        ensures
            queue@ == ContactQueueView::empty(),
    {
        ContactQueue { current: ContactEvents::new(), previous: ContactEvents::new() }
    }

    /// Starts a tick: the contacts written in the tick before move to the
    /// slot that is read, and the slot that is written is emptied. What was
    /// in the slot that is read is dropped.
    pub fn advance(&mut self)
        ensures
            final(self)@ == old(self)@.advance(),
    {
        let mut fresh: ContactEvents = ContactEvents::new();
        std::mem::swap(&mut self.current, &mut fresh);
        self.previous = fresh;
    }

    /// Empties both slots.
    pub fn clear(&mut self)
        ensures
            final(self)@ == ContactQueueView::empty(),
    {
        self.current = ContactEvents::new();
        self.previous = ContactEvents::new();
    }
}

} // verus!
