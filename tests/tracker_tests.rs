use g13::key::{G13Button, G13Error, G13KeyEvent, G13KeyPress};
use g13::tracker::{key_down, KeyIterator, KeyState};

/// A report whose bitmap has exactly the given buttons down.
fn report_with(buttons: &[usize]) -> [u8; 8] {
    let mut report = [0u8; 8];
    for &i in buttons {
        report[3 + i / 8] |= 1 << (i % 8);
    }
    report
}

fn drain(state: &mut KeyState, report: &[u8; 8]) -> Vec<G13KeyEvent> {
    let mut queue = Vec::new();
    state.drain_into(report, &mut queue);
    queue
}

#[test]
fn bit_layout_table() {
    let mut report = [0u8; 8];
    report[3] = 0b0000_0001;
    assert!(key_down(&report, 0));
    assert!(!key_down(&report, 1));
    report[4] = 0b0000_0100;
    assert!(key_down(&report, 10));
    report[7] = 0b1000_0000;
    assert!(key_down(&report, 39));
    assert!(!key_down(&report, 38));
    // the header bytes are never read as buttons
    let header_only = [0xffu8, 0xff, 0xff, 0, 0, 0, 0, 0];
    for i in 0..40 {
        assert!(!key_down(&header_only, i));
    }
}

#[test]
fn single_press_then_repeat_is_silent() {
    for i in 0..40usize {
        let mut state = KeyState::new();
        let report = report_with(&[i]);
        let events = drain(&mut state, &report);
        assert_eq!(events, vec![(G13Button::from_index(i), G13KeyPress::Pressed)]);
        assert!(drain(&mut state, &report).is_empty());
    }
}

#[test]
fn two_presses_in_ascending_order() {
    let mut state = KeyState::new();
    assert!(drain(&mut state, &report_with(&[])).is_empty());
    let events = drain(&mut state, &report_with(&[20, 3]));
    assert_eq!(
        events,
        vec![(G13Button::G4, G13KeyPress::Pressed), (G13Button::G21, G13KeyPress::Pressed)]
    );
}

#[test]
fn press_and_release_in_one_report() {
    let mut state = KeyState::new();
    drain(&mut state, &report_with(&[5]));
    let events = drain(&mut state, &report_with(&[39]));
    assert_eq!(
        events,
        vec![(G13Button::G6, G13KeyPress::Released), (G13Button::MISCTOGGLE, G13KeyPress::Pressed)]
    );
    assert!(state.is_pressed(G13Button::MISCTOGGLE));
    assert!(!state.is_pressed(G13Button::G6));
}

#[test]
fn reserved_slots_are_transition_sources() {
    let mut state = KeyState::new();
    let events = drain(&mut state, &report_with(&[22, 36]));
    assert_eq!(
        events,
        vec![(G13Button::UNDEF1, G13KeyPress::Pressed), (G13Button::UNDEF3, G13KeyPress::Pressed)]
    );
}

#[test]
fn drain_appends_to_the_queue() {
    let mut state = KeyState::new();
    let mut queue = vec![(G13Button::BD, G13KeyPress::Released)];
    state.drain_into(&report_with(&[0]), &mut queue);
    assert_eq!(
        queue,
        vec![(G13Button::BD, G13KeyPress::Released), (G13Button::G1, G13KeyPress::Pressed)]
    );
}

#[test]
fn iterator_yields_the_same_events_as_drain() {
    let report = report_with(&[1, 9, 30]);
    let mut it = KeyIterator::new(KeyState::new(), report);
    let mut events = Vec::new();
    while let Some(e) = it.next() {
        events.push(e);
    }
    assert_eq!(
        events,
        vec![
            (G13Button::G2, G13KeyPress::Pressed),
            (G13Button::G10, G13KeyPress::Pressed),
            (G13Button::M2, G13KeyPress::Pressed),
        ]
    );
    assert_eq!(it.next(), None);
    let mut state = it.finish();
    assert!(drain(&mut state, &report).is_empty());
}

#[test]
fn abandoned_iterator_still_settles_the_state() {
    let report = report_with(&[2, 17, 33]);
    let mut it = KeyIterator::new(KeyState::new(), report);
    assert_eq!(it.next(), Some((G13Button::G3, G13KeyPress::Pressed)));
    let mut state = it.finish();
    assert!(state.is_pressed(G13Button::G3));
    assert!(state.is_pressed(G13Button::G18));
    assert!(state.is_pressed(G13Button::LEFT));
    assert!(drain(&mut state, &report).is_empty());
}

#[test]
fn untouched_iterator_finish_settles_the_state() {
    let report = report_with(&[0, 39]);
    let it = KeyIterator::new(KeyState::new(), report);
    let state = it.finish();
    for i in 0..40usize {
        assert_eq!(state.is_pressed(G13Button::from_index(i)), i == 0 || i == 39);
    }
}

#[test]
fn read_of_a_report_is_processed() {
    let mut state = KeyState::new();
    let mut queue = Vec::new();
    let r = state.process_read(Ok(report_with(&[12])), &mut queue);
    assert!(r.is_ok());
    assert_eq!(queue, vec![(G13Button::G13, G13KeyPress::Pressed)]);
}

#[test]
fn read_timeout_is_no_error() {
    let mut state = KeyState::new();
    drain(&mut state, &report_with(&[4]));
    let mut queue = Vec::new();
    let r = state.process_read(Err(G13Error::Timeout), &mut queue);
    assert!(r.is_ok());
    assert!(queue.is_empty());
    assert!(state.is_pressed(G13Button::G5));
}

#[test]
fn read_failure_is_handed_back() {
    let mut state = KeyState::new();
    let mut queue = Vec::new();
    let r = state.process_read(Err(G13Error::USBError("pipe".to_string())), &mut queue);
    match r {
        Err(G13Error::USBError(detail)) => assert_eq!(detail, "pipe"),
        other => panic!("unexpected {:?}", other),
    }
    assert!(queue.is_empty());
}
