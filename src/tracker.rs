//! The key-state tracker: it remembers which buttons were down as of the last
//! report and turns each new report into one event per button that changed,
//! in ascending button order.

use vstd::prelude::*;

use crate::constants::G13_KEYS_LENGTH;
use crate::key::{button_at, press_of, G13Button, G13Error, G13KeyEvent, G13KeyPress};

verus! {

/// Whether a report marks button `i` as down: bit `i % 8` of byte `3 + i / 8`.
pub open spec fn report_bit(report: Seq<u8>, i: int) -> bool {
    report[3 + i / 8] & (1u8 << ((i % 8) as u8)) != 0
}

/// The key state that agrees with a report on every button.
pub open spec fn report_state(report: Seq<u8>) -> Seq<bool> {
    Seq::new(40, |i: int| report_bit(report, i))
}

/// The events for the buttons from index `i` up whose bit in the report
/// differs from the key state, in ascending order.
pub open spec fn events_from(keys: Seq<bool>, report: Seq<u8>, i: nat) -> Seq<G13KeyEvent>
    decreases 40 - i,
{
    if i >= 40 {
        seq![]
    } else if report_bit(report, i as int) != keys[i as int] {
        seq![(button_at(i as usize), press_of(report_bit(report, i as int)))] + events_from(
            keys,
            report,
            i + 1,
        )
    } else {
        events_from(keys, report, i + 1)
    }
}

/// The events that a report yields against a key state: one per button whose
/// bit differs from the state, in ascending button order.
pub open spec fn report_events(keys: Seq<bool>, report: Seq<u8>) -> Seq<G13KeyEvent> {
    events_from(keys, report, 0)
}

/// Whether the report marks button `i` as down.
pub fn key_down(report: &[u8; 8], i: usize) -> (down: bool)
    requires
        i < 40,
    ensures
        down == report_bit(report@, i as int),
    no_unwind
{
    let byte = report[3 + i / 8];
    byte & (1u8 << ((i % 8) as u8)) != 0
}

/// Two key states that agree from index `k` up yield the same events from
/// `k` up.
proof fn lemma_events_from_agree(a: Seq<bool>, b: Seq<bool>, report: Seq<u8>, k: nat)
    requires
        forall|j: int| k <= j < 40 ==> a[j] == b[j],
    ensures
        events_from(a, report, k) == events_from(b, report, k),
    decreases 40 - k,
{
    if k < 40 {
        lemma_events_from_agree(a, b, report, k + 1);
    }
}

/// A key state that agrees with the report from index `k` up yields no
/// events from `k` up.
proof fn lemma_events_from_settled(keys: Seq<bool>, report: Seq<u8>, k: nat)
    requires
        forall|j: int| k <= j < 40 ==> keys[j] == report_bit(report, j),
    ensures
        events_from(keys, report, k) == Seq::<G13KeyEvent>::empty(),
    decreases 40 - k,
{
    if k < 40 {
        lemma_events_from_settled(keys, report, k + 1);
    }
}

/// Buttons from `k` to `i` that agree with the report add no events.
proof fn lemma_events_from_skip(keys: Seq<bool>, report: Seq<u8>, k: nat, i: nat)
    requires
        k <= i <= 40,
        forall|j: int| k <= j < i ==> keys[j] == report_bit(report, j),
    ensures
        events_from(keys, report, k) == events_from(keys, report, i),
    decreases i - k,
{
    if k < i {
        lemma_events_from_skip(keys, report, k + 1, i);
    }
}

/// Whether each button was down as of the last report processed.
pub struct KeyState {
    keys: [bool; 40],
}

impl View for KeyState {
    type V = Seq<bool>;

    closed spec fn view(&self) -> Seq<bool> {
        self.keys@
    }
}

impl KeyState {
    /// A state with every button released.
    pub fn new() -> (state: KeyState)
        ensures
            state@ == Seq::new(40, |i: int| false),
    {
        let state = KeyState { keys: [false; G13_KEYS_LENGTH] };
        assert(state@ =~= Seq::new(40, |i: int| false));
        state
    }

    /// Whether the button was down as of the last report processed.
    pub fn is_pressed(&self, button: G13Button) -> (down: bool)
        ensures
            down == self@[crate::key::button_index(button) as int],
    {
        self.keys[button.index()]
    }

    /// Brings button `i` in line with the report, and returns its event if it
    /// changed.
    fn update_key(&mut self, report: &[u8; 8], i: usize) -> (event: Option<G13KeyEvent>)
        requires
            i < 40,
        ensures
            ({
                let down = report_bit(report@, i as int);
                if down != old(self)@[i as int] {
                    &&& event == Some((button_at(i), press_of(down)))
                    &&& final(self)@ == old(self)@.update(i as int, down)
                } else {
                    &&& event is None
                    &&& final(self)@ == old(self)@
                }
            }),
        no_unwind
    {
        let down = key_down(report, i);
        if down != self.keys[i] {
            self.keys[i] = down;
            let press = if down {
                G13KeyPress::Pressed
            } else {
                G13KeyPress::Released
            };
            Some((G13Button::from_index(i), press))
        } else {
            None
        }
    }

    /// Processes a whole report: appends to `queue` one event per button that
    /// changed, in ascending button order, and leaves the state equal to the
    /// report.
    pub fn drain_into(&mut self, report: &[u8; 8], queue: &mut Vec<G13KeyEvent>)
        ensures
            final(self)@ == report_state(report@),
            final(queue)@ == old(queue)@ + report_events(old(self)@, report@),
    {
        let mut i: usize = 0;
        while i < G13_KEYS_LENGTH
            invariant
                0 <= i <= 40,
                self@.len() == 40,
                forall|j: int| 0 <= j < i ==> self@[j] == report_bit(report@, j),
                forall|j: int| i <= j < 40 ==> self@[j] == old(self)@[j],
                queue@ + events_from(self@, report@, i as nat) == old(queue)@ + report_events(
                    old(self)@,
                    report@,
                ),
            decreases 40 - i,
        {
            let ghost before = self@;
            let ghost queued = queue@;
            let event = self.update_key(report, i);
            proof {
                lemma_events_from_agree(before, self@, report@, (i + 1) as nat);
            }
            match event {
                Some(e) => {
                    queue.push(e);
                    assert(queued + events_from(before, report@, i as nat) == queue@
                        + events_from(self@, report@, (i + 1) as nat)) by {
                        assert(queued + (seq![e] + events_from(self@, report@, (i + 1) as nat))
                            =~= queue@ + events_from(self@, report@, (i + 1) as nat));
                    }
                },
                None => {},
            }
            i += 1;
        }
        assert(queue@ + events_from(self@, report@, 40) =~= queue@);
        assert(self@ =~= report_state(report@));
    }
}

impl KeyState {
    /// Handles the outcome of one bounded read of the key endpoint: a report is
    /// processed as by `drain_into`, a timeout changes nothing and is no
    /// error, and any other failure is handed back with nothing changed.
    pub fn process_read(&mut self, read: Result<[u8; 8], G13Error>, queue: &mut Vec<G13KeyEvent>) -> (r:
        Result<(), G13Error>)
        ensures
            match read {
                Ok(report) => {
                    &&& r is Ok
                    &&& final(self)@ == report_state(report@)
                    &&& final(queue)@ == old(queue)@ + report_events(old(self)@, report@)
                },
                Err(G13Error::Timeout) => {
                    &&& r is Ok
                    &&& final(self)@ == old(self)@
                    &&& final(queue)@ == old(queue)@
                },
                Err(e) => {
                    &&& r == Err::<(), G13Error>(e)
                    &&& final(self)@ == old(self)@
                    &&& final(queue)@ == old(queue)@
                },
            },
    {
        match read {
            Ok(report) => {
                self.drain_into(&report, queue);
                Ok(())
            },
            Err(G13Error::Timeout) => Ok(()),
            Err(e) => Err(e),
        }
    }
}

/// The events of one report, handed out one at a time. The iterator owns the
/// key state while it runs; `finish` processes whatever is left and hands the
/// state back, so no transition of the report can be lost.
pub struct KeyIterator {
    state: KeyState,
    bytes: [u8; 8],
    i: usize,
}

impl KeyIterator {
    #[verifier::type_invariant]
    closed spec fn inv(&self) -> bool {
        &&& self.i <= 40
        &&& forall|j: int| 0 <= j < self.i ==> self.state@[j] == report_bit(self.bytes@, j)
    }

    /// The report being processed.
    pub closed spec fn report(&self) -> Seq<u8> {
        self.bytes@
    }

    /// The events not yet handed out.
    pub closed spec fn pending(&self) -> Seq<G13KeyEvent> {
        events_from(self.state@, self.bytes@, self.i as nat)
    }

    /// Starts processing `bytes` against `state`.
    pub fn new(state: KeyState, bytes: [u8; 8]) -> (it: KeyIterator)
        ensures
            it.report() == bytes@,
            it.pending() == report_events(state@, bytes@),
    {
        KeyIterator { state, bytes, i: 0 }
    }

    /// The next event of the report, or `None` once all have been handed out.
    pub fn next(&mut self) -> (event: Option<G13KeyEvent>)
        ensures
            final(self).report() == old(self).report(),
            old(self).pending().len() == 0 ==> event is None && final(self).pending().len() == 0,
            old(self).pending().len() > 0 ==> event == Some(old(self).pending()[0])
                && final(self).pending() == old(self).pending().drop_first(),
    {
        proof {
            use_type_invariant(&*self);
        }
        while self.i < G13_KEYS_LENGTH
            invariant
                self.i <= 40,
                self.bytes == old(self).bytes,
                forall|j: int| 0 <= j < self.i ==> self.state@[j] == report_bit(self.bytes@, j),
                events_from(self.state@, self.bytes@, self.i as nat) == old(self).pending(),
            decreases 40 - self.i,
        {
            let i = self.i;
            let ghost before = self.state@;
            let event = self.state.update_key(&self.bytes, i);
            proof {
                lemma_events_from_agree(before, self.state@, self.bytes@, (i + 1) as nat);
            }
            self.i = i + 1;
            match event {
                Some(e) => {
                    assert(old(self).pending() == seq![e] + self.pending());
                    assert((seq![e] + self.pending()).drop_first() =~= self.pending());
                    return Some(e);
                },
                None => {},
            }
        }
        None
    }

    /// Processes the events not yet handed out and returns the key state,
    /// which then agrees with the whole report however many events were taken.
    pub fn finish(self) -> (state: KeyState)
        ensures
            state@ == report_state(self.report()),
    {
        proof {
            use_type_invariant(&self);
        }
        let KeyIterator { state, bytes, i } = self;
        let mut state = state;
        let mut i = i;
        while i < G13_KEYS_LENGTH
            invariant
                i <= 40,
                state@.len() == 40,
                forall|j: int| 0 <= j < i ==> state@[j] == report_bit(bytes@, j),
            decreases 40 - i,
        {
            state.update_key(&bytes, i);
            i += 1;
        }
        assert(state@ =~= report_state(bytes@));
        state
    }
}

/// A report with exactly one bit set, fed to a state with every button
/// released, yields exactly one event: that button, pressed.
pub proof fn lemma_single_press(report: Seq<u8>, i: int)
    requires
        report.len() == 8,
        0 <= i < 40,
        report_bit(report, i),
        forall|j: int| 0 <= j < 40 && j != i ==> !report_bit(report, j),
    ensures
        report_events(Seq::new(40, |j: int| false), report) == seq![
            (button_at(i as usize), G13KeyPress::Pressed),
        ],
{
    let keys = Seq::new(40, |j: int| false);
    lemma_events_from_skip(keys, report, 0, i as nat);
    lemma_events_from_settled(keys, report, (i + 1) as nat);
    assert(events_from(keys, report, i as nat) =~= seq![
        (button_at(i as usize), G13KeyPress::Pressed),
    ]);
}

/// Once a report has been processed, the same report again yields no events.
pub proof fn lemma_repeated_report(report: Seq<u8>)
    requires
        report.len() == 8,
    ensures
        report_events(report_state(report), report) == Seq::<G13KeyEvent>::empty(),
{
    lemma_events_from_settled(report_state(report), report, 0);
}

/// Two buttons pressed between two consecutive reports, with no other change,
/// yield exactly two events, the lower index first.
pub proof fn lemma_two_presses(previous: Seq<u8>, report: Seq<u8>, i: int, j: int)
    requires
        previous.len() == 8,
        report.len() == 8,
        0 <= i < 40,
        0 <= j < 40,
        i != j,
        !report_bit(previous, i),
        !report_bit(previous, j),
        report_bit(report, i),
        report_bit(report, j),
        forall|k: int| 0 <= k < 40 && k != i && k != j ==> report_bit(report, k) == report_bit(previous, k),
    ensures
        ({
            let lo = if i < j { i } else { j };
            let hi = if i < j { j } else { i };
            report_events(report_state(previous), report) == seq![
                (button_at(lo as usize), G13KeyPress::Pressed),
                (button_at(hi as usize), G13KeyPress::Pressed),
            ]
        }),
{
    let lo = if i < j { i } else { j };
    let hi = if i < j { j } else { i };
    let keys = report_state(previous);
    lemma_events_from_skip(keys, report, 0, lo as nat);
    lemma_events_from_skip(keys, report, (lo + 1) as nat, hi as nat);
    lemma_events_from_settled(keys, report, (hi + 1) as nat);
    assert(events_from(keys, report, lo as nat) =~= seq![
        (button_at(lo as usize), G13KeyPress::Pressed),
        (button_at(hi as usize), G13KeyPress::Pressed),
    ]);
}

} // verus!
