//! What a button is bound to, and the virtual keyboard operations that each
//! transition of a bound button calls for.

use vstd::prelude::*;

use crate::key::G13KeyPress;

verus! {

/// A binding as the contracts see it: nothing, one key, or an ordered chord
/// of keys.
pub enum Binding<T> {
    Noop,
    SingleKey(T),
    Chord(Seq<T>),
}

/// The action bound to a button. `T` is the key type of the virtual keyboard.
#[derive(Debug)]
pub enum G13KeyAction<T> {
    Noop,
    Key(T),
    MultipleKeys(Vec<T>),
}

impl<T> View for G13KeyAction<T> {
    type V = Binding<T>;

    open spec fn view(&self) -> Binding<T> {
        match self {
            G13KeyAction::Noop => Binding::Noop,
            G13KeyAction::Key(k) => Binding::SingleKey(*k),
            G13KeyAction::MultipleKeys(keys) => Binding::Chord(keys@),
        }
    }
}

/// One operation on the virtual keyboard. `Synchronize` flushes the
/// operations before it to the listeners as one batch.
#[derive(Debug, PartialEq, Eq)]
pub enum OutputCommand<T> {
    Press(T),
    Release(T),
    Click(T),
    Synchronize,
}

/// A click of every key, in order.
pub open spec fn clicks<T>(keys: Seq<T>) -> Seq<OutputCommand<T>> {
    keys.map_values(|k: T| OutputCommand::Click(k))
}

/// What a press of a button with this binding does: a single key goes down,
/// a chord is clicked key by key, and either is then synchronized once; no
/// binding does nothing.
pub open spec fn press_commands<T>(b: Binding<T>) -> Seq<OutputCommand<T>> {
    match b {
        Binding::Noop => seq![],
        Binding::SingleKey(k) => seq![OutputCommand::Press(k), OutputCommand::Synchronize],
        Binding::Chord(keys) => clicks(keys).push(OutputCommand::Synchronize),
    }
}

/// What a release of a button with this binding does: a single key goes up
/// and is synchronized; a chord, fired entirely on press, and no binding do
/// nothing.
pub open spec fn release_commands<T>(b: Binding<T>) -> Seq<OutputCommand<T>> {
    match b {
        Binding::SingleKey(k) => seq![OutputCommand::Release(k), OutputCommand::Synchronize],
        _ => seq![],
    }
}

/// What a transition of a button with this binding does.
pub open spec fn transition_commands<T>(b: Binding<T>, press: G13KeyPress) -> Seq<
    OutputCommand<T>,
> {
    match press {
        G13KeyPress::Pressed => press_commands(b),
        G13KeyPress::Released => release_commands(b),
    }
}

impl<T: Copy> G13KeyAction<T> {
    /// The operations for a press of a button bound to this action.
    pub fn pressed(&self) -> (commands: Vec<OutputCommand<T>>)
        ensures
            commands@ == press_commands(self@),
    {
        let mut commands: Vec<OutputCommand<T>> = Vec::new();
        match self {
            G13KeyAction::Noop => {},
            G13KeyAction::Key(key) => {
                commands.push(OutputCommand::Press(*key));
                commands.push(OutputCommand::Synchronize);
            },
            G13KeyAction::MultipleKeys(keys) => {
                let mut i: usize = 0;
                while i < keys.len()
                    invariant
                        i <= keys@.len(),
                        commands@ == clicks(keys@.take(i as int)),
                    decreases keys@.len() - i,
                {
                    commands.push(OutputCommand::Click(keys[i]));
                    i += 1;
                    assert(keys@.take(i as int) =~= keys@.take(i - 1).push(keys@[i - 1]));
                    assert(commands@ =~= clicks(keys@.take(i as int)));
                }
                assert(keys@.take(i as int) =~= keys@);
                commands.push(OutputCommand::Synchronize);
            },
        }
        assert(commands@ =~= press_commands(self@));
        commands
    }

    /// The operations for a release of a button bound to this action.
    pub fn released(&self) -> (commands: Vec<OutputCommand<T>>)
        ensures
            commands@ == release_commands(self@),
    {
        let mut commands: Vec<OutputCommand<T>> = Vec::new();
        match self {
            G13KeyAction::Key(key) => {
                commands.push(OutputCommand::Release(*key));
                commands.push(OutputCommand::Synchronize);
            },
            _ => {},
        }
        assert(commands@ =~= release_commands(self@));
        commands
    }

    /// The operations for a transition of a button bound to this action.
    pub fn on_transition(&self, press: G13KeyPress) -> (commands: Vec<OutputCommand<T>>)
        ensures
            commands@ == transition_commands(self@, press),
    {
        match press {
            G13KeyPress::Pressed => self.pressed(),
            G13KeyPress::Released => self.released(),
        }
    }
}

impl<T: Copy> Clone for G13KeyAction<T> {
    fn clone(&self) -> (copy: Self)
        ensures
            copy@ == self@,
    {
        match self {
            G13KeyAction::Noop => G13KeyAction::Noop,
            G13KeyAction::Key(key) => G13KeyAction::Key(*key),
            G13KeyAction::MultipleKeys(keys) => {
                let mut copied: Vec<T> = Vec::new();
                let mut i: usize = 0;
                while i < keys.len()
                    invariant
                        i <= keys@.len(),
                        copied@ == keys@.take(i as int),
                    decreases keys@.len() - i,
                {
                    copied.push(keys[i]);
                    i += 1;
                    assert(copied@ =~= keys@.take(i as int));
                }
                assert(copied@ =~= keys@);
                G13KeyAction::MultipleKeys(copied)
            },
        }
    }
}

} // verus!
