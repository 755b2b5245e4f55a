use vstd::prelude::*;
use crate::log::TimestampLog;

verus! {

/// Event class of key state changes in the Linux input protocol.
pub open spec fn key_class() -> u16 {
    1
}

/// Key code of the backspace key, the correction key that never counts.
pub open spec fn correction_code() -> u16 {
    14
}

/// Event value of a key-down transition (0 is release, 2 is autorepeat).
pub const PRESSED: i32 = 1;

/// A raw input event as the kernel delivers it: its class, its key code and
/// its value.
#[derive(Clone, Copy, Debug, PartialEq, Eq, Structural)]
pub struct KeyEvent {
    pub event_type: u16,
    pub code: u16,
    pub value: i32,
}

/// Whether `ev` is a key-down of any key but the correction key.
pub open spec fn qualifies(ev: KeyEvent) -> bool {
    ev.event_type == key_class() && ev.value == 1 && ev.code != correction_code()
}

/// The log after events `evs` arrived at the instants `at`, one for one,
/// starting from `stamps`.
pub open spec fn collected(stamps: Seq<u64>, evs: Seq<KeyEvent>, at: Seq<u64>) -> Seq<u64>
    recommends
        evs.len() == at.len(),
    decreases evs.len(),
{
    if evs.len() == 0 {
        stamps
    } else {
        let before = collected(stamps, evs.drop_last(), at.drop_last());
        if qualifies(evs.last()) {
            before.push(at[evs.len() - 1])
        } else {
            before
        }
    }
}

/// Relies on evdev's `EventType::KEY`, the class of key state changes.
#[verifier::external_body]
fn key_event_class() -> (r: u16)
    ensures
        r == key_class(),
{
    evdev::EventType::KEY.0
}

/// Relies on evdev's `Key::KEY_BACKSPACE` and `Key::code`.
#[verifier::external_body]
fn backspace_code() -> (r: u16)
    ensures
        r == correction_code(),
{
    evdev::Key::KEY_BACKSPACE.code()
}

impl KeyEvent {
    /// Whether this event is a qualifying key press: a key state change
    /// whose value is a press, on a key other than backspace.
    pub fn is_qualifying(&self) -> (r: bool)
        ensures
            r == qualifies(*self),
    {
        self.event_type == key_event_class() && self.value == PRESSED && self.code
            != backspace_code()
    }
}

/// Handles one raw event that arrived at `now`: a qualifying press is
/// appended to `log`, every other event leaves it as it was.
pub fn record_event(log: &mut TimestampLog, ev: KeyEvent, now: u64) -> (counted: bool)
    ensures
        counted == qualifies(ev),
        final(log)@ == if counted {
            old(log)@.push(now)
        } else {
            old(log)@
        },
{
    if ev.is_qualifying() {
        log.append(now);
        true
    } else {
        false
    }
}

/// Appending events one by one gives exactly the stamps of the qualifying
/// ones, so the log grows by one entry per qualifying press.
pub proof fn lemma_collected_step(stamps: Seq<u64>, evs: Seq<KeyEvent>, at: Seq<u64>, ev: KeyEvent, now: u64)
    requires
        evs.len() == at.len(),
    ensures
        collected(stamps, evs.push(ev), at.push(now)) == if qualifies(ev) {
            collected(stamps, evs, at).push(now)
        } else {
            collected(stamps, evs, at)
        },
{
    assert(evs.push(ev).drop_last() =~= evs);
    assert(at.push(now).drop_last() =~= at);
}

/// Presses of the correction key never add to the log, however many there
/// are.
pub proof fn lemma_correction_key_never_counts(stamps: Seq<u64>, evs: Seq<KeyEvent>, at: Seq<u64>)
    requires
        evs.len() == at.len(),
        forall|i: int| 0 <= i < evs.len() ==> (#[trigger] evs[i]).code == correction_code(),
    ensures
        collected(stamps, evs, at) == stamps,
    decreases evs.len(),
{
    if evs.len() > 0 {
        lemma_correction_key_never_counts(stamps, evs.drop_last(), at.drop_last());
    }
}

/// Releases (value 0) and autorepeats (value 2), like every value other
/// than a press, never add to the log.
pub proof fn lemma_only_presses_count(stamps: Seq<u64>, evs: Seq<KeyEvent>, at: Seq<u64>)
    requires
        evs.len() == at.len(),
        forall|i: int| 0 <= i < evs.len() ==> (#[trigger] evs[i]).value != 1,
    ensures
        collected(stamps, evs, at) == stamps,
    decreases evs.len(),
{
    if evs.len() > 0 {
        lemma_only_presses_count(stamps, evs.drop_last(), at.drop_last());
    }
}

} // verus!
