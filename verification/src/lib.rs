//! A type-erased event dispatch core.
//!
//! Statically-typed event values are erased into a uniform cell
//! ([`AnyEvent`](event::AnyEvent)), routed through a component graph, and
//! recovered by the components whose declared event type matches the
//! cell's runtime tag.
//!
//! The crate is organised in three layers:
//!
//! * [`event`] — the erased value cell, the [`Event`](event::Event)
//!   capability (erase / recover / compatibility test), and the
//!   [`Subtype`](event::Subtype) relation between a member type and its
//!   enclosing event family;
//! * [`events`] — concrete event types and an event family, each with its
//!   hand-written `Event` implementation;
//! * [`component`] — typed handlers ([`Component`](component::Component)),
//!   the erased handler wrapper, and the dispatch container that fans an
//!   erased event out to every registered handler;
//! * [`handlers`] — demonstration components with inspectable state.
//!
//! Ownership of an erased payload is enforced by construction: a cell is
//! move-only and its payload is plain data, so it is consumed exactly
//! once — either recovery hands the value back out, or dropping the cell
//! disposes of the payload completely, with nothing to double-free and
//! nothing to leak.

pub mod component;
pub mod event;
pub mod events;
pub mod handlers;
