//! Concrete event types and an event family.
//!
//! These are the hand-written [`Event`] implementations for a pair of
//! plain event types, [`KeyDown`] and [`KeyUp`], and for the family
//! [`KeyEvent`] that encloses them. A plain type compares the cell's tag
//! against its own; the family compares against the tags of all its
//! members and recovery re-wraps whichever member matched.

use vstd::prelude::*;

use crate::event::AnyEvent;
use crate::event::ErasedForm;
use crate::event::Event;
use crate::event::Payload;
use crate::event::Subtype;

verus! {

/// The runtime tag of [`KeyDown`].
pub const KEY_DOWN_TAG: u64 = 1;

/// The runtime tag of [`KeyUp`].
pub const KEY_UP_TAG: u64 = 2;

/// A key was pressed.
#[derive(Clone, Copy, Debug, PartialEq, Eq, Structural)]
pub struct KeyDown {
    /// The code of the pressed key.
    pub key: u64,
}

/// A key was released.
#[derive(Clone, Copy, Debug, PartialEq, Eq, Structural)]
pub struct KeyUp {
    /// The code of the released key.
    pub key: u64,
}

impl Event for KeyDown {
    open spec fn tag_set() -> Set<u64> {
        set![KEY_DOWN_TAG]
    }

    open spec fn erased(self) -> ErasedForm {
        ErasedForm { tag: KEY_DOWN_TAG, data: Payload::Word(self.key) }
    }

    open spec fn accepts(m: ErasedForm) -> bool {
        m.tag == KEY_DOWN_TAG && m.data matches Payload::Word(_)
    }

    proof fn lemma_erased_accepted(e: Self) {
    }

    proof fn lemma_accepts_tag(m: ErasedForm) {
    }

    proof fn lemma_erased_injective(a: Self, b: Self) {
    }

    fn filter_any(ev: AnyEvent) -> (r: Option<Self>) {
        if ev.get_id() == KEY_DOWN_TAG {
            match ev.into_data() {
                Payload::Word(key) => Some(KeyDown { key }),
                _ => None,
            }
        } else {
            None
        }
    }

    fn upcast_to_any(self) -> (r: AnyEvent) {
        AnyEvent::new(KEY_DOWN_TAG, Payload::Word(self.key))
    }

    fn check_any(ev: &AnyEvent) -> (r: bool) {
        ev.get_id() == KEY_DOWN_TAG
    }
}

impl Event for KeyUp {
    open spec fn tag_set() -> Set<u64> {
        set![KEY_UP_TAG]
    }

    open spec fn erased(self) -> ErasedForm {
        ErasedForm { tag: KEY_UP_TAG, data: Payload::Word(self.key) }
    }

    open spec fn accepts(m: ErasedForm) -> bool {
        m.tag == KEY_UP_TAG && m.data matches Payload::Word(_)
    }

    proof fn lemma_erased_accepted(e: Self) {
    }

    proof fn lemma_accepts_tag(m: ErasedForm) {
    }

    proof fn lemma_erased_injective(a: Self, b: Self) {
    }

    fn filter_any(ev: AnyEvent) -> (r: Option<Self>) {
        if ev.get_id() == KEY_UP_TAG {
            match ev.into_data() {
                Payload::Word(key) => Some(KeyUp { key }),
                _ => None,
            }
        } else {
            None
        }
    }

    fn upcast_to_any(self) -> (r: AnyEvent) {
        AnyEvent::new(KEY_UP_TAG, Payload::Word(self.key))
    }

    fn check_any(ev: &AnyEvent) -> (r: bool) {
        ev.get_id() == KEY_UP_TAG
    }
}

/// The family of key events, with members [`KeyDown`] and [`KeyUp`].
///
/// A family value carries which member it is; recovering an erased cell as
/// the family succeeds for whichever member's tag matches.
#[derive(Clone, Copy, Debug, PartialEq, Eq, Structural)]
pub enum KeyEvent {
    /// The [`KeyDown`] member.
    Down(KeyDown),
    /// The [`KeyUp`] member.
    Up(KeyUp),
}

impl Event for KeyEvent {
    open spec fn tag_set() -> Set<u64> {
        set![KEY_DOWN_TAG, KEY_UP_TAG]
    }

    open spec fn erased(self) -> ErasedForm {
        match self {
            KeyEvent::Down(d) => d.erased(),
            KeyEvent::Up(u) => u.erased(),
        }
    }

    open spec fn accepts(m: ErasedForm) -> bool {
        KeyDown::accepts(m) || KeyUp::accepts(m)
    }

    proof fn lemma_erased_accepted(e: Self) {
    }

    proof fn lemma_accepts_tag(m: ErasedForm) {
    }

    proof fn lemma_erased_injective(a: Self, b: Self) {
    }

    fn filter_any(ev: AnyEvent) -> (r: Option<Self>) {
        let id = ev.get_id();
        if id == KEY_DOWN_TAG {
            match KeyDown::filter_any(ev) {
                Some(d) => Some(KeyEvent::Down(d)),
                None => None,
            }
        } else if id == KEY_UP_TAG {
            match KeyUp::filter_any(ev) {
                Some(u) => Some(KeyEvent::Up(u)),
                None => None,
            }
        } else {
            None
        }
    }

    fn upcast_to_any(self) -> (r: AnyEvent) {
        match self {
            KeyEvent::Down(d) => d.upcast_to_any(),
            KeyEvent::Up(u) => u.upcast_to_any(),
        }
    }

    fn check_any(ev: &AnyEvent) -> (r: bool) {
        let id = ev.get_id();
        id == KEY_DOWN_TAG || id == KEY_UP_TAG
    }
}

impl Subtype<KeyEvent> for KeyDown {
    proof fn lemma_member_tags() {
        assert(KeyDown::tag_set().subset_of(KeyEvent::tag_set()));
    }

    proof fn lemma_member_accepts(m: ErasedForm) {
    }

    fn filter(ev: KeyEvent) -> (r: Option<Self>) {
        match ev {
            KeyEvent::Down(d) => {
                proof {
                    KeyDown::lemma_erased_accepted(d);
                }
                Some(d)
            },
            KeyEvent::Up(_) => None,
        }
    }

    fn upcast(self) -> (r: KeyEvent) {
        KeyEvent::Down(self)
    }

    fn check(ev: &KeyEvent) -> (r: bool) {
        match ev {
            KeyEvent::Down(_) => true,
            KeyEvent::Up(_) => false,
        }
    }
}

impl Subtype<KeyEvent> for KeyUp {
    proof fn lemma_member_tags() {
        assert(KeyUp::tag_set().subset_of(KeyEvent::tag_set()));
    }

    proof fn lemma_member_accepts(m: ErasedForm) {
    }

    fn filter(ev: KeyEvent) -> (r: Option<Self>) {
        match ev {
            KeyEvent::Down(_) => None,
            KeyEvent::Up(u) => {
                proof {
                    KeyUp::lemma_erased_accepted(u);
                }
                Some(u)
            },
        }
    }

    fn upcast(self) -> (r: KeyEvent) {
        KeyEvent::Up(self)
    }

    fn check(ev: &KeyEvent) -> (r: bool) {
        match ev {
            KeyEvent::Down(_) => false,
            KeyEvent::Up(_) => true,
        }
    }
}

} // verus!
