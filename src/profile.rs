//! The profile store: pages of bindings, one of them active, and the rules by
//! which button transitions resolve against it.

use vstd::prelude::*;

use crate::action::{transition_commands, Binding, G13KeyAction, OutputCommand};
use crate::constants::{G13_KEYS_LENGTH, G13_PAGE_COUNT};
use crate::key::{button_index, G13Button, G13KeyEvent, G13KeyPress};

verus! {

/// The page that a page-selector button switches to; the three selectors are
/// `L1`, `L2` and `L3`, and no other button is one.
pub open spec fn selector_page(b: G13Button) -> Option<nat> {
    match b {
        G13Button::L1 => Some(0),
        G13Button::L2 => Some(1),
        G13Button::L3 => Some(2),
        _ => None,
    }
}

/// Pages of button bindings, one binding per button on each page, and the
/// page that is active. The binding of button `i` on page `p` is held at
/// `40 * p + i`.
pub struct G13KeyProfile<T> {
    binding_pages: Vec<G13KeyAction<T>>,
    active_binding: usize,
}

/// The bindings of three pages of forty buttons, all of them `Noop`.
fn empty_pages<T>() -> (pages: Vec<G13KeyAction<T>>)
    ensures
        pages@.len() == 120,
        forall|i: int| 0 <= i < 120 ==> (#[trigger] pages@[i])@ == Binding::<T>::Noop,
{
    let mut pages: Vec<G13KeyAction<T>> = Vec::new();
    let mut i: usize = 0;
    while i < 120
        invariant
            i <= 120,
            pages@.len() == i,
            forall|j: int| 0 <= j < i ==> (#[trigger] pages@[j])@ == Binding::<T>::Noop,
        decreases 120 - i,
    {
        pages.push(G13KeyAction::Noop);
        i += 1;
    }
    pages
}

impl<T> G13KeyProfile<T> {
    #[verifier::type_invariant]
    closed spec fn inv(&self) -> bool {
        &&& self.binding_pages@.len() == 120
        &&& self.active_binding < 3
    }

    /// The page whose bindings are in force.
    pub closed spec fn active_page(&self) -> nat {
        self.active_binding as nat
    }

    /// The bindings of every page, indexed by page and then by button index.
    pub closed spec fn bindings(&self) -> Seq<Seq<Binding<T>>> {
        Seq::new(3, |p: int| Seq::new(40, |i: int| self.binding_pages@[40 * p + i]@))
    }

    /// The binding of the button with index `index` on page `page`.
    pub open spec fn binding(&self, page: int, index: int) -> Binding<T> {
        self.bindings()[page][index]
    }

    /// Whether two profiles hold the same binding for every button on every
    /// page.
    pub open spec fn same_bindings(&self, other: &Self) -> bool {
        forall|p: int, i: int| 0 <= p < 3 && 0 <= i < 40 ==> #[trigger] self.binding(p, i) == other.binding(p, i)
    }

    /// What a button resolves to: `Noop` for a page selector, whatever the
    /// table holds for it, and otherwise its binding on the active page.
    pub open spec fn resolution(&self, key: G13Button) -> Binding<T> {
        if selector_page(key) is Some {
            Binding::Noop
        } else {
            self.binding(self.active_page() as int, button_index(key) as int)
        }
    }

    /// The index of the active page, always one of the three.
    pub fn page_index(&self) -> (page: usize)
        ensures
            page == self.active_page(),
            page < 3,
    {
        proof {
            use_type_invariant(self);
        }
        self.active_binding
    }

    /// A profile whose bindings are all `Noop`, with the first page active.
    pub fn new() -> (profile: Self)
        ensures
            profile.active_page() == 0,
            forall|p: int, i: int| 0 <= p < 3 && 0 <= i < 40 ==> #[trigger] profile.binding(p, i) == Binding::<T>::Noop,
    {
        G13KeyProfile { binding_pages: empty_pages(), active_binding: 0 }
    }

    /// The binding of `key` on the active page, as the table holds it.
    pub fn get_action(&self, key: G13Button) -> (action: &G13KeyAction<T>)
        ensures
            action@ == self.binding(self.active_page() as int, button_index(key) as int),
    {
        proof {
            use_type_invariant(self);
        }
        &self.binding_pages[G13_KEYS_LENGTH * self.active_binding + key.index()]
    }

    /// Makes `page` the active page if it is one of the three; any other
    /// request is ignored.
    pub fn set_page(&mut self, page: usize)
        ensures
            page < 3 ==> final(self).active_page() == page,
            page >= 3 ==> final(self).active_page() == old(self).active_page(),
            final(self).same_bindings(old(self)),
    {
        proof {
            use_type_invariant(&*self);
        }
        if page < G13_PAGE_COUNT {
            self.active_binding = page;
        }
    }

    /// Binds `key` to `action` on page `page` if it is one of the three; a
    /// request for any other page is ignored.
    pub fn set_action(&mut self, page: usize, key: G13Button, action: G13KeyAction<T>)
        ensures
            page < 3 ==> final(self).binding(page as int, button_index(key) as int) == action@,
            forall|p: int, i: int|
                0 <= p < 3 && 0 <= i < 40 && !(p == page && i == button_index(key))
                    ==> (#[trigger] final(self).binding(p, i)) == old(self).binding(p, i),
            final(self).active_page() == old(self).active_page(),
    {
        proof {
            use_type_invariant(&*self);
        }
        if page < G13_PAGE_COUNT {
            self.binding_pages[G13_KEYS_LENGTH * page + key.index()] = action;
            assert forall|p: int, i: int|
                0 <= p < 3 && 0 <= i < 40 && !(p == page && i == button_index(key))
                    implies (#[trigger] self.binding(p, i)) == old(self).binding(p, i) by {
                assert(40 * p + i != 40 * page + button_index(key));
            }
        }
    }
}

impl<T: Copy> G13KeyProfile<T> {
    /// What `key` resolves to: `Noop` for a page selector, even where the
    /// table holds a binding for it, and otherwise its binding on the active
    /// page.
    pub fn resolve(&self, key: G13Button) -> (action: G13KeyAction<T>)
        ensures
            action@ == self.resolution(key),
            selector_page(key) is Some ==> action@ == Binding::<T>::Noop,
    {
        match key {
            G13Button::L1 | G13Button::L2 | G13Button::L3 => G13KeyAction::Noop,
            _ => self.get_action(key).clone(),
        }
    }

    /// Applies one event: the release of a page selector switches to its
    /// page, any other transition of a selector does nothing, and the
    /// transition of any other button yields the operations of its binding on
    /// the active page. The bindings never change.
    pub fn dispatch(&mut self, event: G13KeyEvent) -> (commands: Vec<OutputCommand<T>>)
        ensures
            final(self).same_bindings(old(self)),
            match selector_page(event.0) {
                Some(page) => {
                    &&& commands@.len() == 0
                    &&& event.1 == G13KeyPress::Released ==> final(self).active_page() == page
                    &&& event.1 == G13KeyPress::Pressed ==> final(self).active_page() == old(
                        self,
                    ).active_page()
                },
                None => {
                    &&& commands@ == transition_commands(old(self).resolution(event.0), event.1)
                    &&& final(self).active_page() == old(self).active_page()
                },
            },
    {
        let (button, press) = event;
        match button {
            G13Button::L1 | G13Button::L2 | G13Button::L3 => {
                if press == G13KeyPress::Released {
                    self.set_page(button.index() - G13Button::L1.index());
                }
                Vec::new()
            },
            _ => self.get_action(button).on_transition(press),
        }
    }
}

} // verus!
