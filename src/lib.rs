//! Custody and type checks for a type-erased owning box.
//!
//! A type-erased box holds one heap value behind an untyped address, together
//! with the value's type tag and a destructor specialised to its type. This
//! library decides, for such a box, when a typed borrow may be handed out, when
//! ownership may leave the box, and when the box must run its destructor; and
//! it proves that a value is handed on (unwrapped or reclaimed) exactly once.
pub mod custody;
pub mod lemmas;
pub mod type_tag;

pub use custody::{Custody, CustodyView, Outcome, Request};
