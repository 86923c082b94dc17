use circini::event::AnyEvent;
use circini::event::Event;
use circini::event::Payload;
use circini::event::Subtype;
use circini::events::KeyDown;
use circini::events::KeyEvent;
use circini::events::KeyUp;
use circini::events::KEY_DOWN_TAG;
use circini::events::KEY_UP_TAG;

#[test]
fn test_upcast_to_any_and_back() {
    let event = KeyDown { key: 17 };
    println!("Before upcast: {:?}", &event);

    let event_any = event.upcast_to_any();
    println!("After upcast: {:?}", event_any);

    let event_down = <KeyDown as Subtype<AnyEvent>>::filter(event_any);
    println!("After downcast: {:?}", event_down.unwrap());
}

#[test]
fn test_upcast_to_any_and_back_invalid() {
    let event = KeyDown { key: 42 };
    println!("Before upcast: {:?}", &event);

    let event_any = event.upcast_to_any();
    println!("After upcast: {:?}", event_any);

    println!("Trying downcast to wrong event...");
    let event_down_maybe = <KeyUp as Subtype<AnyEvent>>::filter(event_any);
    match event_down_maybe {
        Some(_) => panic!("Invalid downcast somehow successful"),
        None => (),
    }
}

#[test]
fn round_trip_returns_the_same_value() {
    let cell = KeyDown { key: 17 }.upcast_to_any();
    assert_eq!(KeyDown::filter_any(cell), Some(KeyDown { key: 17 }));

    let cell = KeyUp { key: 200 }.upcast_to_any();
    assert_eq!(KeyUp::filter_any(cell), Some(KeyUp { key: 200 }));
}

#[test]
fn recovery_as_an_unrelated_type_yields_nothing() {
    let cell = KeyDown { key: 42 }.upcast_to_any();
    assert_eq!(KeyUp::filter_any(cell), None);

    let cell = KeyUp { key: 42 }.upcast_to_any();
    assert_eq!(KeyDown::filter_any(cell), None);
}

#[test]
fn check_any_compares_the_runtime_tag() {
    let cell = KeyDown { key: 3 }.upcast_to_any();
    assert!(KeyDown::check_any(&cell));
    assert!(!KeyUp::check_any(&cell));
    assert_eq!(cell.get_id(), KEY_DOWN_TAG);

    let cell = KeyUp { key: 3 }.upcast_to_any();
    assert!(KeyUp::check_any(&cell));
    assert!(!KeyDown::check_any(&cell));
    assert_eq!(cell.get_id(), KEY_UP_TAG);
}

#[test]
fn family_recognises_both_members_and_no_stranger() {
    let down = KeyDown { key: 1 }.upcast_to_any();
    let up = KeyUp { key: 2 }.upcast_to_any();
    let stranger = AnyEvent::new(999, Payload::Word(1));

    assert!(KeyEvent::check_any(&down));
    assert!(KeyEvent::check_any(&up));
    assert!(!KeyEvent::check_any(&stranger));
    assert_eq!(KeyEvent::filter_any(stranger), None);
}

#[test]
fn family_recovers_the_right_member() {
    let down = KeyDown { key: 7 }.upcast_to_any();
    assert_eq!(KeyEvent::filter_any(down), Some(KeyEvent::Down(KeyDown { key: 7 })));

    let up = KeyUp { key: 8 }.upcast_to_any();
    assert_eq!(KeyEvent::filter_any(up), Some(KeyEvent::Up(KeyUp { key: 8 })));
}

#[test]
fn member_filter_recovers_only_its_own_member() {
    let family = KeyEvent::Down(KeyDown { key: 5 });
    assert_eq!(<KeyDown as Subtype<KeyEvent>>::filter(family), Some(KeyDown { key: 5 }));

    let family = KeyEvent::Down(KeyDown { key: 5 });
    assert_eq!(<KeyUp as Subtype<KeyEvent>>::filter(family), None);

    let family = KeyEvent::Up(KeyUp { key: 6 });
    assert_eq!(<KeyUp as Subtype<KeyEvent>>::filter(family), Some(KeyUp { key: 6 }));
}

#[test]
fn member_check_and_upcast_agree() {
    let family = <KeyDown as Subtype<KeyEvent>>::upcast(KeyDown { key: 9 });
    assert_eq!(family, KeyEvent::Down(KeyDown { key: 9 }));
    assert!(<KeyDown as Subtype<KeyEvent>>::check(&family));
    assert!(!<KeyUp as Subtype<KeyEvent>>::check(&family));
}

#[test]
fn erased_family_value_round_trips_through_the_member() {
    let cell = KeyDown { key: 11 }.upcast_to_any();
    let family = KeyEvent::filter_any(cell).unwrap();
    assert_eq!(<KeyDown as Subtype<KeyEvent>>::filter(family), Some(KeyDown { key: 11 }));
}

#[test]
fn universal_family_accepts_everything() {
    let stranger = AnyEvent::new(12345, Payload::Pair(1, 2));
    assert!(AnyEvent::check_any(&stranger));
    let back = AnyEvent::filter_any(stranger).unwrap();
    assert_eq!(back.get_id(), 12345);
    assert_eq!(back.into_data(), Payload::Pair(1, 2));
}

#[test]
fn cell_keeps_tag_and_payload_of_every_shape() {
    let shapes = vec![
        Payload::Unit,
        Payload::Word(17),
        Payload::Pair(1, 2),
        Payload::Quad(1, 2, 3, u64::MAX),
    ];
    let mut tag: u64 = 50;
    for shape in shapes {
        let cell = AnyEvent::new(tag, shape);
        assert_eq!(cell.get_id(), tag);
        assert_eq!(cell.into_data(), shape);
        tag += 1;
    }
}

#[test]
fn duplicated_cell_carries_the_same_erased_form() {
    let cell = KeyDown { key: 21 }.upcast_to_any();
    let copy = cell.clone();
    assert_eq!(copy.get_id(), cell.get_id());
    assert_eq!(KeyDown::filter_any(copy), Some(KeyDown { key: 21 }));
    assert_eq!(KeyDown::filter_any(cell), Some(KeyDown { key: 21 }));
}

#[test]
fn recovery_is_all_or_nothing_on_a_malformed_payload() {
    // The tag says KeyDown, but the payload is not the shape a KeyDown
    // erases to: the tag-only test passes, recovery produces nothing.
    let cell = AnyEvent::new(KEY_DOWN_TAG, Payload::Pair(1, 2));
    assert!(KeyDown::check_any(&cell));
    assert_eq!(KeyDown::filter_any(cell), None);
}

#[test]
fn checked_cell_downcasts_to_the_erased_value() {
    let cell = AnyEvent::new(KEY_DOWN_TAG, Payload::Word(33));
    let event: KeyDown = cell.downcast_into_unchecked();
    assert_eq!(event, KeyDown { key: 33 });
}
