use circini::component::Attach;
use circini::component::Component;
use circini::component::Container;
use circini::component::DynamicComponent;
use circini::component::Either;
use circini::event::AnyEvent;
use circini::event::Event;
use circini::event::Payload;
use circini::events::KeyDown;
use circini::events::KeyUp;
use circini::handlers::DownCounter;
use circini::handlers::KeyTally;
use circini::handlers::UpCounter;

#[test]
fn wrapper_delivers_a_matching_event() {
    let mut wrapper = DynamicComponent::from(DownCounter::new());
    wrapper.handle(KeyDown { key: 17 }.upcast_to_any());
    assert_eq!(wrapper.into_inner(), DownCounter { count: 1, last_key: 17 });
}

#[test]
fn wrapper_discards_a_mismatched_event_without_effect() {
    let mut wrapper = DynamicComponent::from(UpCounter::new());
    wrapper.handle(KeyDown { key: 42 }.upcast_to_any());
    assert_eq!(wrapper.into_inner(), UpCounter { count: 0, last_key: 0 });
}

#[test]
fn broadcast_invokes_only_the_interested_handler() {
    let mut container: Container<Either<DynamicComponent<DownCounter>, DynamicComponent<UpCounter>>> =
        Container::new();
    container.push(Either::First(DynamicComponent::from(DownCounter::new())));
    container.push(Either::Second(DynamicComponent::from(UpCounter::new())));

    container.on(KeyDown { key: 17 }.upcast_to_any());

    let mut comps = container.into_components();
    assert_eq!(comps.len(), 2);
    match comps.remove(0) {
        Either::First(w) => assert_eq!(w.into_inner(), DownCounter { count: 1, last_key: 17 }),
        Either::Second(_) => panic!("registration order was not kept"),
    }
    match comps.remove(0) {
        Either::Second(w) => assert_eq!(w.into_inner(), UpCounter { count: 0, last_key: 0 }),
        Either::First(_) => panic!("registration order was not kept"),
    }
}

#[test]
fn broadcast_reaches_every_interested_handler() {
    let mut container: Container<DynamicComponent<DownCounter>> = Container::new();
    container.attach(DownCounter::new());
    container.attach(DownCounter { count: 10, last_key: 0 });

    container.on(KeyDown { key: 3 }.upcast_to_any());
    container.on(KeyDown { key: 4 }.upcast_to_any());

    let mut comps = container.into_components();
    assert_eq!(comps.len(), 2);
    assert_eq!(comps.remove(0).into_inner(), DownCounter { count: 2, last_key: 4 });
    assert_eq!(comps.remove(0).into_inner(), DownCounter { count: 12, last_key: 4 });
}

#[test]
fn containers_nest() {
    let mut inner: Container<DynamicComponent<DownCounter>> = Container::new();
    inner.attach(DownCounter::new());

    let mut outer: Container<Container<DynamicComponent<DownCounter>>> = Container::new();
    outer.push(inner);

    outer.on(KeyDown { key: 8 }.upcast_to_any());

    let mut inners = outer.into_components();
    assert_eq!(inners.len(), 1);
    let mut comps = inners.remove(0).into_components();
    assert_eq!(comps.remove(0).into_inner(), DownCounter { count: 1, last_key: 8 });
}

#[test]
fn family_handler_receives_every_member() {
    let mut wrapper = DynamicComponent::from(KeyTally::new());
    wrapper.handle(KeyDown { key: 1 }.upcast_to_any());
    wrapper.handle(KeyUp { key: 1 }.upcast_to_any());
    wrapper.handle(KeyUp { key: 2 }.upcast_to_any());
    wrapper.handle(AnyEvent::new(777, Payload::Unit));
    assert_eq!(wrapper.into_inner(), KeyTally { downs: 1, ups: 2 });
}

#[test]
fn erase_and_reject_leaves_handler_state_untouched() {
    let mut container: Container<DynamicComponent<UpCounter>> = Container::new();
    container.attach(UpCounter::new());

    container.on(KeyDown { key: 42 }.upcast_to_any());

    let mut comps = container.into_components();
    assert_eq!(comps.remove(0).into_inner(), UpCounter { count: 0, last_key: 0 });
}

#[test]
fn counter_saturates_at_the_largest_count() {
    let mut counter = DownCounter { count: u64::MAX, last_key: 0 };
    counter.on(KeyDown { key: 5 });
    assert_eq!(counter, DownCounter { count: u64::MAX, last_key: 5 });
}
