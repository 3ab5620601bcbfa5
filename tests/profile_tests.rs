use g13::action::{G13KeyAction, OutputCommand};
use g13::key::{G13Button, G13KeyPress};
use g13::profile::G13KeyProfile;
use g13::tracker::KeyState;

fn is_noop(action: &G13KeyAction<char>) -> bool {
    matches!(action, G13KeyAction::Noop)
}

/// Runs reports through the tracker and the profile, as the two loops of the
/// driver do, and collects the keyboard operations.
fn run(profile: &mut G13KeyProfile<char>, reports: &[[u8; 8]]) -> Vec<OutputCommand<char>> {
    let mut state = KeyState::new();
    let mut commands = Vec::new();
    for report in reports {
        let mut queue = Vec::new();
        state.drain_into(report, &mut queue);
        for event in queue {
            commands.extend(profile.dispatch(event));
        }
    }
    commands
}

#[test]
fn new_profile_is_all_noop_on_page_zero() {
    let profile: G13KeyProfile<char> = G13KeyProfile::new();
    assert_eq!(profile.page_index(), 0);
    for i in 0..40 {
        assert!(is_noop(profile.get_action(G13Button::from_index(i))));
    }
}

#[test]
fn switch_page_in_range() {
    let mut profile: G13KeyProfile<char> = G13KeyProfile::new();
    profile.set_page(1);
    assert_eq!(profile.page_index(), 1);
    profile.set_page(2);
    assert_eq!(profile.page_index(), 2);
    profile.set_page(2);
    assert_eq!(profile.page_index(), 2);
    profile.set_page(0);
    assert_eq!(profile.page_index(), 0);
}

#[test]
fn switch_page_out_of_range_is_ignored() {
    let mut profile: G13KeyProfile<char> = G13KeyProfile::new();
    profile.set_page(1);
    profile.set_page(3);
    assert_eq!(profile.page_index(), 1);
    profile.set_page(7);
    assert_eq!(profile.page_index(), 1);
    profile.set_page(usize::MAX);
    assert_eq!(profile.page_index(), 1);
}

#[test]
fn bindings_follow_the_active_page() {
    let mut profile: G13KeyProfile<char> = G13KeyProfile::new();
    profile.set_action(1, G13Button::G1, G13KeyAction::Key('q'));
    assert!(is_noop(profile.get_action(G13Button::G1)));
    profile.set_page(1);
    assert!(matches!(profile.get_action(G13Button::G1), G13KeyAction::Key('q')));
}

#[test]
fn binding_on_a_missing_page_is_ignored() {
    let mut profile: G13KeyProfile<char> = G13KeyProfile::new();
    profile.set_action(3, G13Button::G1, G13KeyAction::Key('q'));
    for page in 0..3 {
        profile.set_page(page);
        assert!(is_noop(profile.get_action(G13Button::G1)));
    }
}

#[test]
fn selectors_resolve_to_noop() {
    let mut profile: G13KeyProfile<char> = G13KeyProfile::new();
    for b in [G13Button::L1, G13Button::L2, G13Button::L3] {
        profile.set_action(0, b, G13KeyAction::Key('z'));
        assert!(matches!(profile.get_action(b), G13KeyAction::Key('z')));
        assert!(is_noop(&profile.resolve(b)));
    }
    profile.set_action(0, G13Button::L4, G13KeyAction::Key('y'));
    assert!(matches!(profile.resolve(G13Button::L4), G13KeyAction::Key('y')));
}

#[test]
fn resolve_copies_a_chord() {
    let mut profile: G13KeyProfile<char> = G13KeyProfile::new();
    profile.set_action(0, G13Button::G2, G13KeyAction::MultipleKeys(vec!['a', 'b', 'c']));
    match profile.resolve(G13Button::G2) {
        G13KeyAction::MultipleKeys(keys) => assert_eq!(keys, vec!['a', 'b', 'c']),
        other => panic!("unexpected {:?}", other),
    }
}

#[test]
fn selector_release_switches_page_and_press_does_not() {
    let mut profile: G13KeyProfile<char> = G13KeyProfile::new();
    profile.set_action(0, G13Button::L3, G13KeyAction::Key('z'));
    assert!(profile.dispatch((G13Button::L3, G13KeyPress::Pressed)).is_empty());
    assert_eq!(profile.page_index(), 0);
    assert!(profile.dispatch((G13Button::L3, G13KeyPress::Released)).is_empty());
    assert_eq!(profile.page_index(), 2);
    assert!(profile.dispatch((G13Button::L2, G13KeyPress::Released)).is_empty());
    assert_eq!(profile.page_index(), 1);
    assert!(profile.dispatch((G13Button::L1, G13KeyPress::Released)).is_empty());
    assert_eq!(profile.page_index(), 0);
}

#[test]
fn l4_is_not_a_selector() {
    let mut profile: G13KeyProfile<char> = G13KeyProfile::new();
    profile.set_page(1);
    assert!(profile.dispatch((G13Button::L4, G13KeyPress::Released)).is_empty());
    assert_eq!(profile.page_index(), 1);
}

#[test]
fn single_key_press_release_end_to_end() {
    let mut profile: G13KeyProfile<char> = G13KeyProfile::new();
    profile.set_action(0, G13Button::from_index(5), G13KeyAction::Key('A'));
    let up = [0u8; 8];
    let mut down = [0u8; 8];
    down[3] = 1 << 5;
    let commands = run(&mut profile, &[up, down, up]);
    assert_eq!(
        commands,
        vec![
            OutputCommand::Press('A'),
            OutputCommand::Synchronize,
            OutputCommand::Release('A'),
            OutputCommand::Synchronize,
        ]
    );
}

#[test]
fn chord_fires_on_press_only() {
    let mut profile: G13KeyProfile<char> = G13KeyProfile::new();
    profile.set_action(0, G13Button::G7, G13KeyAction::MultipleKeys(vec!['X', 'Y']));
    let pressed = profile.dispatch((G13Button::G7, G13KeyPress::Pressed));
    assert_eq!(
        pressed,
        vec![OutputCommand::Click('X'), OutputCommand::Click('Y'), OutputCommand::Synchronize]
    );
    assert!(profile.dispatch((G13Button::G7, G13KeyPress::Released)).is_empty());
}

#[test]
fn empty_chord_only_synchronizes() {
    let action: G13KeyAction<char> = G13KeyAction::MultipleKeys(Vec::new());
    assert_eq!(action.pressed(), vec![OutputCommand::Synchronize]);
    assert!(action.released().is_empty());
}

#[test]
fn noop_dispatches_nothing() {
    let mut profile: G13KeyProfile<char> = G13KeyProfile::new();
    assert!(profile.dispatch((G13Button::G1, G13KeyPress::Pressed)).is_empty());
    assert!(profile.dispatch((G13Button::G1, G13KeyPress::Released)).is_empty());
}

#[test]
fn page_switch_changes_what_a_button_does() {
    let mut profile: G13KeyProfile<char> = G13KeyProfile::new();
    profile.set_action(0, G13Button::G1, G13KeyAction::Key('a'));
    profile.set_action(1, G13Button::G1, G13KeyAction::Key('b'));
    let mut report = [0u8; 8];
    report[3] = 1;
    let mut l2 = [0u8; 8];
    l2[6] = 1 << 2;
    let up = [0u8; 8];
    let commands = run(&mut profile, &[report, up, l2, up, report]);
    assert_eq!(
        commands,
        vec![
            OutputCommand::Press('a'),
            OutputCommand::Synchronize,
            OutputCommand::Release('a'),
            OutputCommand::Synchronize,
            OutputCommand::Press('b'),
            OutputCommand::Synchronize,
        ]
    );
    assert_eq!(profile.page_index(), 1);
}

#[test]
fn on_transition_matches_pressed_and_released() {
    let action = G13KeyAction::Key('k');
    assert_eq!(action.on_transition(G13KeyPress::Pressed), action.pressed());
    assert_eq!(action.on_transition(G13KeyPress::Released), action.released());
}

#[test]
fn clone_keeps_the_action() {
    let action = G13KeyAction::MultipleKeys(vec!['1', '2']);
    match action.clone() {
        G13KeyAction::MultipleKeys(keys) => assert_eq!(keys, vec!['1', '2']),
        other => panic!("unexpected {:?}", other),
    }
}
