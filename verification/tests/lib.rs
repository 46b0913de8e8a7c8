use torifune::clock::ScheduledEvent;

#[test]
fn check_scheduled_event() {
    let event = ScheduledEvent::new(
        |x: i32| {
            println!("Event is Called {}", x);
            Ok(())
        },
        10,
    );

    match event.call_event(10) {
        Ok(_result) => println!("OK"),
        Err(msg) => println!("{}", msg),
    }

    assert_eq!(10, event.get_scheduled());
}

#[test]
fn scheduled_event_keeps_time_and_error() {
    let event = ScheduledEvent::new(|_x: u8| Err("boom"), 77);
    assert_eq!(77, event.get_scheduled());
    assert_eq!(Err("boom"), event.call_event(3));
}
