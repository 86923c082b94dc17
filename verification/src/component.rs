//! Typed handlers, the erased handler wrapper, and the dispatch container.
//!
//! A [`Component`] is a statically-typed handler: it declares the one event
//! type it receives and a transition relation describing how its state
//! reacts. A [`DynamicComponent`] wraps a handler so it can receive the
//! erased cell instead: it runs the compatibility test and only
//! materializes the typed value when the test passes. A [`Container`]
//! holds an ordered sequence of such wrappers and broadcasts each cell to
//! every one of them, handing each an independent duplicate of the cell;
//! the container itself receives the universal family, so containers
//! nest.

use vstd::prelude::*;

use crate::event::AnyEvent;
use crate::event::ErasedForm;
use crate::event::Event;
use crate::event::recovered;

verus! {

/// A statically-typed event handler with private state.
///
/// `Receives` is the one event type (or family) the handler declares
/// interest in, and [`Component::steps`] is the handler's own transition
/// relation: everything [`Component::on`] may do to the state, stated over
/// the value before and after the call.
pub trait Component: Sized {
    /// The event type this component receives.
    type Receives: Event;

    /// The transition relation of this component: which state changes
    /// receiving `ev` may cause.
    spec fn steps(pre: Self, ev: Self::Receives, post: Self) -> bool;

    /// Reacts to one event, mutating only this component's own state, as
    /// the component's transition relation describes.
    fn on(&mut self, ev: Self::Receives)
        ensures
            Self::steps(*old(self), ev, *final(self)),
    ;
}

/// How a wrapped component reacts to an erased cell: if the component's
/// declared event type recovers the cell's erased form, the state steps by
/// the component's own transition on the recovered value; otherwise the
/// cell is discarded and the state is exactly unchanged.
pub open spec fn dispatch_step<C: Component>(pre: C, m: ErasedForm, post: C) -> bool {
    if <C::Receives as Event>::accepts(m) {
        C::steps(pre, recovered::<C::Receives>(m), post)
    } else {
        post == pre
    }
}

/// A handler wrapper: binds one statically-typed component to an erased
/// invocation path. The wrapper owns the component's state for the
/// wrapper's own lifetime and releases it with it.
pub struct DynamicComponent<C: Component> {
    state: C,
}

impl<C: Component> DynamicComponent<C> {
    /// The wrapped component's state.
    pub closed spec fn wrapped(self) -> C {
        self.state
    }

    /// Wraps a component, taking ownership of its state.
    pub fn from(comp: C) -> (r: DynamicComponent<C>)
        ensures
            r.wrapped() == comp,
    {
        DynamicComponent { state: comp }
    }

    /// Releases the wrapper, handing the component's state back out.
    pub fn into_inner(self) -> (r: C)
        ensures
            r == self.wrapped(),
    {
        self.state
    }

    /// Delivers an erased cell to the wrapped component: tests whether the
    /// component's declared event type is compatible, recovers the typed
    /// value and invokes the component only if so, and otherwise discards
    /// the cell with no effect on the component.
    pub fn handle(&mut self, ev: AnyEvent)
        ensures
            dispatch_step::<C>(old(self).wrapped(), ev@, final(self).wrapped()),
    {
        match <C::Receives as Event>::filter_any(ev) {
            Some(e) => {
                proof {
                    assert(e.erased() == ev@);
                    let chosen = recovered::<C::Receives>(ev@);
                    assert(chosen.erased() == ev@) by {
                        assert(exists|t: C::Receives| t.erased() == ev@);
                    }
                    <C::Receives as Event>::lemma_erased_injective(chosen, e);
                }
                self.state.on(e);
            },
            None => {},
        }
    }
}

/// Two wrappers around the same state are the same wrapper: the wrapped
/// state is all there is to a wrapper.
pub proof fn lemma_wrapper_determined<C: Component>(a: DynamicComponent<C>, b: DynamicComponent<C>)
    requires
        a.wrapped() == b.wrapped(),
    ensures
        a == b,
{
}

/// A wrapper receives the universal family and steps by
/// [`dispatch_step`]: delivery gated on the wrapped component's own
/// compatibility test.
impl<C: Component> Component for DynamicComponent<C> {
    type Receives = AnyEvent;

    open spec fn steps(pre: Self, ev: AnyEvent, post: Self) -> bool {
        dispatch_step::<C>(pre.wrapped(), ev@, post.wrapped())
    }

    fn on(&mut self, ev: AnyEvent) {
        self.handle(ev);
    }
}

/// An ordered sequence of handlers, itself exposed as a single handler
/// for the universal family, so containers nest.
///
/// Broadcasting duplicates the cell once per registered handler: payload
/// duplication is exact (see [`AnyEvent`]'s `Clone`), so every handler
/// receives an independent, separately-disposed copy carrying the same
/// erased form.
pub struct Container<C: Component<Receives = AnyEvent>> {
    comps: Vec<C>,
}

impl<C: Component<Receives = AnyEvent>> Container<C> {
    /// The registered handlers, in registration order.
    pub closed spec fn handlers(self) -> Seq<C> {
        self.comps@
    }

    /// Creates an empty container.
    pub fn new() -> (r: Container<C>)
        ensures
            r.handlers().len() == 0,
    {
        Container { comps: Vec::new() }
    }

    /// Registers a handler at the end of the broadcast order.
    pub fn push(&mut self, comp: C)
        ensures
            final(self).handlers() == old(self).handlers().push(comp),
    {
        self.comps.push(comp);
    }

    /// Releases the container, handing the registered handlers back out
    /// in registration order.
    pub fn into_components(self) -> (r: Vec<C>)
        ensures
            r@ == self.handlers(),
    {
        self.comps
    }
}

/// A container steps by stepping every registered handler on the same
/// erased form, in registration order, each through its own transition
/// relation; no handler is added, removed or reordered by a broadcast.
impl<C: Component<Receives = AnyEvent>> Component for Container<C> {
    type Receives = AnyEvent;

    open spec fn steps(pre: Self, ev: AnyEvent, post: Self) -> bool {
        &&& post.handlers().len() == pre.handlers().len()
        &&& forall|j: int|
            0 <= j < pre.handlers().len() ==> C::steps(
                pre.handlers()[j],
                ev,
                #[trigger] post.handlers()[j],
            )
    }

    /// Broadcasts the cell to every registered handler, handing each an
    /// independent duplicate; the cell itself is disposed when the
    /// broadcast completes.
    fn on(&mut self, ev: AnyEvent) {
        let n = self.comps.len();
        let mut i: usize = 0;
        while i < n
            invariant
                i <= n,
                n == self.comps.len(),
                self.comps@.len() == old(self).handlers().len(),
                forall|j: int|
                    0 <= j < i ==> C::steps(
                        old(self).handlers()[j],
                        ev,
                        #[trigger] self.comps@[j],
                    ),
                forall|j: int| i <= j < n ==> self.comps@[j] == old(self).handlers()[j],
            decreases n - i,
        {
            let copy = ev.clone();
            proof {
                <AnyEvent as Event>::lemma_erased_injective(copy, ev);
            }
            self.comps[i].on(copy);
            i = i + 1;
        }
    }
}

/// A handler that is one of two kinds, letting one container hold
/// independently-typed handlers in a single registration order: nesting
/// `Either`s widens the choice to any fixed set of kinds.
pub enum Either<L, R> {
    /// A handler of the first kind.
    First(L),
    /// A handler of the second kind.
    Second(R),
}

/// A two-kind handler steps by the transition relation of whichever kind
/// it is; its kind never changes.
impl<L, R> Component for Either<L, R> where
    L: Component<Receives = AnyEvent>,
    R: Component<Receives = AnyEvent>,
{
    type Receives = AnyEvent;

    open spec fn steps(pre: Self, ev: AnyEvent, post: Self) -> bool {
        match (pre, post) {
            (Either::First(a), Either::First(b)) => L::steps(a, ev, b),
            (Either::Second(a), Either::Second(b)) => R::steps(a, ev, b),
            _ => false,
        }
    }

    fn on(&mut self, ev: AnyEvent) {
        match self {
            Either::First(l) => l.on(ev),
            Either::Second(r) => r.on(ev),
        }
    }
}

/// The capability of taking ownership of a component and registering it
/// for dispatch. [`Attach::attached`] states what registering did to the
/// receiver.
pub trait Attach<C: Component>: Sized {
    /// The registration relation: which changes attaching `other` may
    /// cause to the receiver.
    spec fn attached(pre: Self, other: C, post: Self) -> bool;

    /// Takes ownership of `other` and registers it, as the registration
    /// relation describes.
    fn attach(&mut self, other: C)
        ensures
            Self::attached(*old(self), other, *final(self)),
    ;
}

/// Attaching a component to a container wraps it and appends the wrapper
/// at the end of the broadcast order; the handlers already registered are
/// untouched.
impl<C: Component> Attach<C> for Container<DynamicComponent<C>> {
    open spec fn attached(pre: Self, other: C, post: Self) -> bool {
        &&& post.handlers().len() == pre.handlers().len() + 1
        &&& post.handlers().last().wrapped() == other
        &&& forall|j: int|
            0 <= j < pre.handlers().len() ==> post.handlers()[j] == #[trigger] pre.handlers()[j]
    }

    fn attach(&mut self, other: C) {
        self.push(DynamicComponent::from(other));
    }
}

/// Dispatch fan-out law: broadcasting an erased event to a container
/// whose handlers are of two kinds invokes exactly the handlers whose
/// declared event type recovers the cell, each on the recovered typed
/// value, and leaves every other handler's state unchanged.
///
/// The premise on `pre`, `ev` and `post` is the container's own broadcast
/// contract; `ev` is compatible with the first kind's event type and
/// incompatible with the second kind's.
pub proof fn lemma_dispatch_fan_out<A: Component, B: Component>(
    pre: Container<Either<DynamicComponent<A>, DynamicComponent<B>>>,
    ev: AnyEvent,
    post: Container<Either<DynamicComponent<A>, DynamicComponent<B>>>,
)
    requires
        <Container<Either<DynamicComponent<A>, DynamicComponent<B>>> as Component>::steps(
            pre,
            ev,
            post,
        ),
        <A::Receives as Event>::accepts(ev@),
        !<B::Receives as Event>::accepts(ev@),
    ensures
        post.handlers().len() == pre.handlers().len(),
        forall|j: int|
            0 <= j < pre.handlers().len() ==> (match (
                pre.handlers()[j],
                #[trigger] post.handlers()[j],
            ) {
                (Either::First(a), Either::First(b)) => A::steps(
                    a.wrapped(),
                    recovered::<A::Receives>(ev@),
                    b.wrapped(),
                ),
                (Either::Second(a), Either::Second(b)) => b == a,
                _ => false,
            }),
{
    assert forall|j: int| 0 <= j < pre.handlers().len() implies (match (
        pre.handlers()[j],
        #[trigger] post.handlers()[j],
    ) {
        (Either::First(a), Either::First(b)) => A::steps(
            a.wrapped(),
            recovered::<A::Receives>(ev@),
            b.wrapped(),
        ),
        (Either::Second(a), Either::Second(b)) => b == a,
        _ => false,
    }) by {
        match (pre.handlers()[j], post.handlers()[j]) {
            (Either::Second(a), Either::Second(b)) => {
                lemma_wrapper_determined::<B>(a, b);
            },
            _ => {},
        }
    }
}

} // verus!
