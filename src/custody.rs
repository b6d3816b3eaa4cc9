//! Custody of one erased heap value: which type it was erased from, and whether
//! the container still owns it.
//!
//! The container that actually holds the allocation keeps one `Custody` beside
//! its untyped address and asks it before every typed access, every unwrap and
//! at the end of its life. All decisions about who may touch the value, and who
//! must reclaim it, are made here.
use std::any::TypeId;
use vstd::prelude::*;

verus! {

/// What the container is asked to do with its value.
#[derive(Clone, Copy, Debug)]
pub enum Request {
    /// A borrow of the value as the type with this tag.
    Inspect(TypeId),
    /// Ownership of the value as the type with this tag.
    Take(TypeId),
    /// Ownership of the value, the type having been established by the caller.
    TakeUnchecked,
    /// The end of the container's life.
    Release,
}

/// What the container must do in answer to a `Request`.
#[derive(Clone, Copy, Debug, PartialEq, Eq, Structural)]
pub enum Outcome {
    /// Hand out a typed borrow; ownership stays with the container.
    Grant,
    /// Refuse: the typed absence. Nothing changes.
    Deny,
    /// Hand the allocation to the caller; the container no longer owns it.
    Transfer,
    /// Run the destructor on the allocation.
    Reclaim,
    /// Nothing to do: the allocation already left.
    Idle,
}

/// The abstract state of a custody: the erased value's type tag, and whether
/// the container still owns the allocation (its address is non-null).
pub struct CustodyView {
    pub tag: TypeId,
    pub held: bool,
}

impl CustodyView {
    /// Custody of a freshly erased value of the type with tag `tag`.
    pub open spec fn fresh(tag: TypeId) -> CustodyView {
        CustodyView { tag, held: true }
    }

    /// The same tag, with the allocation no longer owned.
    pub open spec fn released(self) -> CustodyView {
        CustodyView { held: false, ..self }
    }

    /// A borrow or an unwrap as the type with tag `t` is allowed.
    pub open spec fn admits(self, t: TypeId) -> bool {
        self.held && self.tag == t
    }

    /// The state after `req`, and what the container must do.
    pub open spec fn next(self, req: Request) -> (CustodyView, Outcome) {
        match req {
            Request::Inspect(t) => (self, if self.admits(t) {
                Outcome::Grant
            } else {
                Outcome::Deny
            }),
            Request::Take(t) => if self.admits(t) {
                (self.released(), Outcome::Transfer)
            } else {
                (self, Outcome::Deny)
            },
            Request::TakeUnchecked => if self.held {
                (self.released(), Outcome::Transfer)
            } else {
                (self, Outcome::Deny)
            },
            Request::Release => if self.held {
                (self.released(), Outcome::Reclaim)
            } else {
                (self, Outcome::Idle)
            },
        }
    }
}

/// The type tag of an erased value, and whether its allocation is still owned.
#[derive(Clone, Copy, Debug)]
pub struct Custody {
    tag: TypeId,
    held: bool,
}

impl View for Custody {
    type V = CustodyView;

    closed spec fn view(&self) -> CustodyView {
        CustodyView { tag: self.tag, held: self.held }
    }
}

impl Custody {
    pub fn new(tag: TypeId) -> (r: Custody)
        ensures
            r@ == CustodyView::fresh(tag),
    {
        Custody { tag, held: true }
    }

    pub fn type_id(&self) -> (r: TypeId)
        ensures
            r == self@.tag,
    {
        self.tag
    }

    /// The erased value is of the type with tag `t`.
    pub fn is(&self, t: TypeId) -> (r: bool)
        ensures
            r == (self@.tag == t),
    {
        self.tag.eq(&t)
    }

    /// The container still owns the allocation.
    pub fn is_held(&self) -> (r: bool)
        ensures
            r == self@.held,
    {
        self.held
    }

    /// A typed borrow as the type with tag `t` may be handed out.
    pub fn admits(&self, t: TypeId) -> (r: bool)
        ensures
            r == self@.admits(t),
    {
        self.held && self.is(t)
    }

    /// Answers `req` and moves to the next state.
    pub fn step(&mut self, req: Request) -> (r: Outcome)
        ensures
            (final(self)@, r) == old(self)@.next(req),
    {
        match req {
            Request::Inspect(t) => if self.admits(t) {
                Outcome::Grant
            } else {
                Outcome::Deny
            },
            Request::Take(t) => if self.admits(t) {
                self.held = false;
                Outcome::Transfer
            } else {
                Outcome::Deny
            },
            Request::TakeUnchecked => if self.held {
                self.held = false;
                Outcome::Transfer
            } else {
                Outcome::Deny
            },
            Request::Release => if self.held {
                self.held = false;
                Outcome::Reclaim
            } else {
                Outcome::Idle
            },
        }
    }
}

} // verus!
