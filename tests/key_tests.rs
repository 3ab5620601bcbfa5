use g13::key::{G13Button, G13KeyPress};

#[test]
fn index_round_trip_for_every_button() {
    for i in 0..40usize {
        assert_eq!(G13Button::from_index(i).index(), i);
    }
}

#[test]
fn button_indices_are_distinct() {
    let mut seen = [false; 40];
    for i in 0..40usize {
        let index = G13Button::from_index(i).index();
        assert!(!seen[index]);
        seen[index] = true;
    }
    assert!(seen.iter().all(|s| *s));
}

#[test]
fn button_indices_follow_the_report_layout() {
    assert_eq!(G13Button::G1.index(), 0);
    assert_eq!(G13Button::G22.index(), 21);
    assert_eq!(G13Button::UNDEF1.index(), 22);
    assert_eq!(G13Button::L1.index(), 25);
    assert_eq!(G13Button::L3.index(), 27);
    assert_eq!(G13Button::MR.index(), 32);
    assert_eq!(G13Button::TOP.index(), 35);
    assert_eq!(G13Button::MISCTOGGLE.index(), 39);
    assert_eq!(G13Button::from_index(33), G13Button::LEFT);
}

#[test]
fn usize_from_button() {
    assert_eq!(usize::from(G13Button::L2), 26);
    assert_eq!(usize::from(G13Button::G6), 5);
}

#[test]
fn press_from_bool() {
    assert_eq!(G13KeyPress::from(true), G13KeyPress::Pressed);
    assert_eq!(G13KeyPress::from(false), G13KeyPress::Released);
}

#[test]
fn labels_and_information() {
    assert_eq!(G13Button::G13.label(), "G13");
    assert_eq!(G13Button::LIGHTSTATE.label(), "LIGHT_STATE");
    assert_eq!(G13Button::MISCTOGGLE.label(), "MISC_TOGGLE");
    let info = G13Button::M3.information();
    assert_eq!(info.index, 31);
    assert_eq!(info.name, "M3");
}

#[test]
fn labels_are_distinct() {
    for i in 0..40usize {
        for j in 0..40usize {
            if i != j {
                assert_ne!(G13Button::from_index(i).label(), G13Button::from_index(j).label());
            }
        }
    }
}
