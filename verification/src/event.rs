//! The erased value cell and the typed event capability.
//!
//! An [`AnyEvent`] owns one event value stripped of its static type: the
//! value's data words together with a runtime tag identifying the concrete
//! type they came from. The [`Event`] trait is the capability implemented
//! once per concrete event type (or once per family): erase a value into a
//! cell, recover it from a cell whose tag matches, and test compatibility
//! without consuming the cell.

use vstd::prelude::*;

verus! {

/// The uniform representation an event value is reduced to when its static
/// type is erased: a small tuple of machine words.
///
/// This is the closed universe of payload shapes the cell can carry. A
/// tagged union of plain words keeps ownership trivial (dropping a cell
/// cannot leak, duplicating one is exact) and makes equality of erased
/// forms structural.
#[derive(Clone, Copy, Debug, PartialEq, Eq, Structural)]
pub enum Payload {
    /// No data: the event is a pure signal.
    Unit,
    /// One data word.
    Word(u64),
    /// Two data words.
    Pair(u64, u64),
    /// Four data words.
    Quad(u64, u64, u64, u64),
}

/// The mathematical model of an erased cell: its runtime type tag and the
/// payload it carries. Contracts throughout the crate speak of values of
/// this form.
pub ghost struct ErasedForm {
    /// The runtime identity of the concrete type the payload came from.
    pub tag: u64,
    /// The data words of the erased value.
    pub data: Payload,
}

/// A dynamically typed event supporting recovery of the original value.
///
/// A cell owns its payload exclusively and is consumed exactly once: either
/// by [`Event::filter_any`] (ownership of the value moves back out) or by
/// being dropped (the payload is plain data, so disposal is complete and
/// leak-free by construction). Broadcast to several handlers duplicates the
/// cell per handler via [`Clone`]; the payload universe is chosen so that
/// duplication is exact and cheap.
#[derive(Debug)]
pub struct AnyEvent {
    id: u64,
    data: Payload,
}

impl View for AnyEvent {
    type V = ErasedForm;

    closed spec fn view(&self) -> ErasedForm {
        ErasedForm { tag: self.id, data: self.data }
    }
}

impl Clone for AnyEvent {
    /// Duplicates the cell exactly: the copy carries the same tag and the
    /// same payload words.
    fn clone(&self) -> (r: Self)
        ensures
            r@ == self@,
    {
        AnyEvent { id: self.id, data: self.data }
    }
}

impl AnyEvent {
    /// Creates a cell that carries `data` under the runtime tag `id`.
    ///
    /// This is the erasure primitive, meant to be used inside
    /// implementations of [`Event`]: an implementation reduces its value to
    /// a [`Payload`] and tags it with the type's own identity. To make an
    /// event dynamically typed, use [`Event::upcast_to_any`] instead.
    pub fn new(id: u64, data: Payload) -> (r: AnyEvent)
        ensures
            r@ == (ErasedForm { tag: id, data: data }),
    {
        AnyEvent { id, data }
    }

    /// Returns the runtime tag of the value currently held by this cell.
    pub fn get_id(&self) -> (r: u64)
        ensures
            r == self@.tag,
    {
        self.id
    }

    /// Returns the payload of this cell, consuming it.
    ///
    /// Together with [`Self::get_id`] this is the recovery primitive used
    /// inside implementations of [`Event`], which gate it behind a tag
    /// check.
    pub fn into_data(self) -> (r: Payload)
        ensures
            r == self@.data,
    {
        self.data
    }

    /// Recovers the typed value from this cell without an explicit runtime
    /// check: the caller must have already established that the cell's
    /// erased form is acceptable to `Ev`.
    ///
    /// Where the check cannot be discharged statically, use
    /// [`Event::filter_any`], which performs it at runtime.
    pub fn downcast_into_unchecked<Ev: Event>(self) -> (r: Ev)
        requires
            Ev::accepts(self@),
        ensures
            r.erased() == self@,
    {
        match Ev::filter_any(self) {
            Some(e) => e,
            None => unreached(),
        }
    }
}

/// The capability implemented once per concrete event type, or once per
/// event family: erasing a value into an [`AnyEvent`], recovering it, and
/// testing compatibility.
///
/// An implementation fixes three spec-level facts about the type:
/// the set of runtime tags its values may carry ([`Event::tag_set`], a
/// singleton for a plain event type, the union of the members' tags for a
/// family), the erased form of each value ([`Event::erased`]), and which
/// erased forms are recoverable as a value of the type
/// ([`Event::accepts`]). Three laws tie them together; every
/// implementation must prove them, and the dispatch machinery relies on
/// them.
pub trait Event: Sized {
    /// The runtime tags of this type's members: a singleton for a plain
    /// event type, one tag per member for an event family.
    spec fn tag_set() -> Set<u64>;

    /// The erased form this value takes: its runtime tag and data words.
    spec fn erased(self) -> ErasedForm;

    /// Whether an erased form is recoverable as a value of this type.
    spec fn accepts(m: ErasedForm) -> bool;

    /// Law: a value's own erased form is always recoverable, and its tag
    /// belongs to the type's tag set.
    proof fn lemma_erased_accepted(e: Self)
        ensures
            Self::accepts(e.erased()),
            Self::tag_set().contains(e.erased().tag),
    ;

    /// Law: only erased forms tagged with one of the type's own tags are
    /// recoverable. With distinct tags per type this rules out false
    /// positives across unrelated types.
    proof fn lemma_accepts_tag(m: ErasedForm)
        requires
            Self::accepts(m),
        ensures
            Self::tag_set().contains(m.tag),
    ;

    /// Law: erasure loses nothing — two values with the same erased form
    /// are the same value.
    proof fn lemma_erased_injective(a: Self, b: Self)
        requires
            a.erased() == b.erased(),
        ensures
            a == b,
    ;

    /// Tries to recover a dynamically typed event `ev` as a value of this
    /// type. Returns the value whose erased form the cell carried if the
    /// cell is compatible, and `None` otherwise.
    fn filter_any(ev: AnyEvent) -> (r: Option<Self>)
        ensures
            (match r {
                Some(e) => Self::accepts(ev@) && e.erased() == ev@,
                None => !Self::accepts(ev@),
            }),
    ;

    /// Erases this event into an [`AnyEvent`], making it dynamically
    /// typed.
    fn upcast_to_any(self) -> (r: AnyEvent)
        ensures
            r@ == self.erased(),
    ;

    /// Checks whether the dynamically typed event `ev` carries a tag of
    /// this type, without consuming the cell.
    fn check_any(ev: &AnyEvent) -> (r: bool)
        ensures
            r == Self::tag_set().contains(ev@.tag),
    ;
}

/// The value of type `T` that an erased form stands for. Meaningful only
/// for forms `T` accepts; by [`Event::lemma_erased_injective`] there is at
/// most one such value.
pub open spec fn recovered<T: Event>(m: ErasedForm) -> T {
    choose|t: T| t.erased() == m
}

/// The universal family: every erased event is a member, erasure is the
/// identity, and recovery always succeeds trivially.
impl Event for AnyEvent {
    open spec fn tag_set() -> Set<u64> {
        Set::full()
    }

    open spec fn erased(self) -> ErasedForm {
        self@
    }

    open spec fn accepts(m: ErasedForm) -> bool {
        true
    }

    proof fn lemma_erased_accepted(e: Self) {
        assert(Set::<u64>::full().contains(e.erased().tag));
    }

    proof fn lemma_accepts_tag(m: ErasedForm) {
        assert(Set::<u64>::full().contains(m.tag));
    }

    proof fn lemma_erased_injective(a: Self, b: Self) {
    }

    fn filter_any(ev: AnyEvent) -> (r: Option<Self>) {
        Some(ev)
    }

    fn upcast_to_any(self) -> (r: AnyEvent) {
        self
    }

    fn check_any(ev: &AnyEvent) -> (r: bool) {
        proof {
            assert(Set::<u64>::full().contains(ev@.tag));
        }
        true
    }
}

/// The membership relation between an event type and an enclosing event
/// family: implementors of `Subtype<E>` are members of the family `E`.
///
/// The same three operations as [`Event`], scoped between the member and
/// the family: erasing a member into the family, recovering a member from
/// a family value, and testing membership. Every event type is trivially a
/// member of the universal family [`AnyEvent`].
pub trait Subtype<E: Event>: Event {
    /// Law: the member's tags are among the family's tags.
    proof fn lemma_member_tags()
        ensures
            Self::tag_set().subset_of(E::tag_set()),
    ;

    /// Law: every erased form the member recovers, the family recovers
    /// too.
    proof fn lemma_member_accepts(m: ErasedForm)
        requires
            Self::accepts(m),
        ensures
            E::accepts(m),
    ;

    /// Tries to recover a family value as a value of this member type.
    fn filter(ev: E) -> (r: Option<Self>)
        ensures
            (match r {
                Some(m) => Self::accepts(ev.erased()) && m.erased() == ev.erased(),
                None => !Self::accepts(ev.erased()),
            }),
    ;

    /// Injects this member value into the family.
    fn upcast(self) -> (r: E)
        ensures
            r.erased() == self.erased(),
    ;

    /// Checks whether a family value is of this member type.
    fn check(ev: &E) -> (r: bool)
        ensures
            r == Self::tag_set().contains(ev.erased().tag),
    ;
}

/// Every event type is a member of the universal family.
impl<E: Event> Subtype<AnyEvent> for E {
    proof fn lemma_member_tags() {
        assert(E::tag_set().subset_of(Set::full()));
    }

    proof fn lemma_member_accepts(m: ErasedForm) {
    }

    fn filter(ev: AnyEvent) -> (r: Option<E>) {
        E::filter_any(ev)
    }

    fn upcast(self) -> (r: AnyEvent) {
        E::upcast_to_any(self)
    }

    fn check(ev: &AnyEvent) -> (r: bool) {
        E::check_any(ev)
    }
}

/// Round-trip law: recovering what erasing produced yields the erased
/// value back, exactly once and unchanged.
///
/// `r` stands for any result [`Event::filter_any`] may return for the
/// erased form of `e` (the premise is that function's contract); every
/// such result is `Some(e)`.
pub proof fn lemma_round_trip<E: Event>(e: E, r: Option<E>)
    requires
        (match r {
            Some(x) => E::accepts(e.erased()) && x.erased() == e.erased(),
            None => !E::accepts(e.erased()),
        }),
    ensures
        r == Some(e),
{
    E::lemma_erased_accepted(e);
    match r {
        Some(x) => {
            E::lemma_erased_injective(x, e);
        },
        None => {},
    }
}

/// No-false-positive law: recovery against a type whose tags are disjoint
/// from the erased value's own type never produces a value.
///
/// `r` stands for any result `F::filter_any` may return for the erased
/// form of `e` (the premise is that function's contract); every such
/// result is `None`.
pub proof fn lemma_no_false_positive<E: Event, F: Event>(e: E, r: Option<F>)
    requires
        E::tag_set().disjoint(F::tag_set()),
        (match r {
            Some(x) => F::accepts(e.erased()) && x.erased() == e.erased(),
            None => !F::accepts(e.erased()),
        }),
    ensures
        r is None,
{
    match r {
        Some(x) => {
            E::lemma_erased_accepted(e);
            F::lemma_accepts_tag(e.erased());
            assert(E::tag_set().contains(e.erased().tag));
            assert(F::tag_set().contains(e.erased().tag));
            assert(false);
        },
        None => {},
    }
}

/// Family-membership law: an erased member is recognised and recovered by
/// its family — its tag is among the family's tags and its erased form is
/// acceptable to the family.
pub proof fn lemma_family_membership<F: Event, M: Subtype<F>>(m: M)
    ensures
        F::tag_set().contains(m.erased().tag),
        F::accepts(m.erased()),
{
    M::lemma_erased_accepted(m);
    M::lemma_member_tags();
    M::lemma_member_accepts(m.erased());
}

/// Family-recovery law: when a family recovers an erased member, the
/// family value it produces carries exactly the member's erased form, and
/// recovery cannot fail.
///
/// `r` stands for any result `F::filter_any` may return for the erased
/// form of the member `m`.
pub proof fn lemma_family_filter<F: Event, M: Subtype<F>>(m: M, r: Option<F>)
    requires
        (match r {
            Some(f) => F::accepts(m.erased()) && f.erased() == m.erased(),
            None => !F::accepts(m.erased()),
        }),
    ensures
        r matches Some(f) && f.erased() == m.erased(),
{
    lemma_family_membership::<F, M>(m);
}

/// Member round-trip law: recovering the member from the family value that
/// the member was injected into yields the member back, not a sibling.
///
/// `f` stands for the family's recovery of the erased member `m` (as
/// [`lemma_family_filter`] describes it), and `r` for any result
/// `M::filter` may return on `f`; every such result is `Some(m)`.
pub proof fn lemma_member_round_trip<F: Event, M: Subtype<F>>(m: M, f: F, r: Option<M>)
    requires
        f.erased() == m.erased(),
        (match r {
            Some(x) => M::accepts(f.erased()) && x.erased() == f.erased(),
            None => !M::accepts(f.erased()),
        }),
    ensures
        r == Some(m),
{
    M::lemma_erased_accepted(m);
    match r {
        Some(x) => {
            M::lemma_erased_injective(x, m);
        },
        None => {},
    }
}

} // verus!
