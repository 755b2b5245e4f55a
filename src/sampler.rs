use vstd::prelude::*;
use crate::log::{window_of, TimestampLog};
use crate::text::{decimal, zero_pad, zero_padded};

verus! {

/// The conventional average word length, in characters.
pub const WORD_LENGTH: usize = 5;

/// Length of the trailing window, in milliseconds.
pub const WINDOW_MS: u64 = 60000;

/// The unit in which a rate is reported.
#[derive(Clone, Copy, Debug, PartialEq, Eq, Structural)]
pub enum Unit {
    CharsPerMinute,
    WordsPerMinute,
}

/// The rate for `count` events in the window.
pub open spec fn rate_spec(count: nat, unit: Unit) -> nat {
    match unit {
        Unit::CharsPerMinute => count,
        Unit::WordsPerMinute => count / (WORD_LENGTH as nat),
    }
}

pub open spec fn max_nat(a: nat, b: nat) -> nat {
    if a >= b {
        a
    } else {
        b
    }
}

/// The best rate reported after ticks with rates `rates`, starting from 0.
pub open spec fn best_after(rates: Seq<nat>) -> nat
    decreases rates.len(),
{
    if rates.len() == 0 {
        0
    } else {
        max_nat(best_after(rates.drop_last()), rates.last())
    }
}

/// The text of one reading: the padded rate, followed by `/` and the padded
/// best when the best is shown.
pub open spec fn reading_text(rate: nat, best: nat, show_best: bool, width: nat) -> Seq<char> {
    if show_best {
        zero_padded(decimal(rate), width) + seq!['/'] + zero_padded(decimal(best), width)
    } else {
        zero_padded(decimal(rate), width)
    }
}

/// Start of the window that ends at `now`; the epoch when `now` is less
/// than a window after it.
pub open spec fn window_start(now: u64) -> u64 {
    if now >= WINDOW_MS {
        (now - WINDOW_MS) as u64
    } else {
        0
    }
}

/// Converts a count of events in the window to a rate in `unit`: the count
/// itself per minute of characters, the count divided by the word length
/// (rounded toward zero) per minute of words.
pub fn rate_of(count: usize, unit: Unit) -> (r: usize)
    ensures
        r == rate_spec(count as nat, unit),
{
    match unit {
        Unit::CharsPerMinute => count,
        Unit::WordsPerMinute => count / WORD_LENGTH,
    }
}

/// The text of a reading, each number zero-padded to at least `width`.
pub fn format_reading(rate: usize, best: usize, show_best: bool, width: usize) -> (r: String)
    ensures
        r@ == reading_text(rate as nat, best as nat, show_best, width as nat),
{
    let s = zero_pad(rate, width);
    if show_best {
        proof {
            reveal_strlit("/");
        }
        let s = s.concat("/");
        let b = zero_pad(best, width);
        s.concat(b.as_str())
    } else {
        s
    }
}

/// The periodic consumer: its configuration and the best rate seen since
/// it was made.
pub struct Sampler {
    unit: Unit,
    show_best: bool,
    width: usize,
    best: usize,
}

impl Sampler {
    /// The unit in which rates are reported.
    pub closed spec fn spec_unit(&self) -> Unit {
        self.unit
    }

    /// Whether readings carry the best rate.
    pub closed spec fn spec_show_best(&self) -> bool {
        self.show_best
    }

    /// Least number of characters of each number in a reading.
    pub closed spec fn spec_width(&self) -> nat {
        self.width as nat
    }

    /// The best rate reported so far.
    pub closed spec fn spec_best(&self) -> nat {
        self.best as nat
    }

    /// A sampler that has not ticked yet; its best is 0.
    pub fn new(unit: Unit, show_best: bool, width: usize) -> (r: Sampler)
        ensures
            r.spec_unit() == unit,
            r.spec_show_best() == show_best,
            r.spec_width() == width as nat,
            r.spec_best() == 0,
    {
        Sampler { unit, show_best, width, best: 0 }
    }

    /// The best rate reported so far.
    pub fn best(&self) -> (r: usize)
        ensures
            r == self.spec_best(),
    {
        self.best
    }

    /// The unit in which rates are reported.
    pub fn unit(&self) -> (r: Unit)
        ensures
            r == self.spec_unit(),
    {
        self.unit
    }

    /// Whether readings carry the best rate.
    pub fn show_best(&self) -> (r: bool)
        ensures
            r == self.spec_show_best(),
    {
        self.show_best
    }

    /// Least number of characters of each number in a reading.
    pub fn width(&self) -> (r: usize)
        ensures
            r == self.spec_width(),
    {
        self.width
    }

    /// One tick on a window holding `count` events: returns the rate and
    /// raises the best to it if it is higher.
    pub fn tick(&mut self, count: usize) -> (rate: usize)
        ensures
            rate == rate_spec(count as nat, old(self).spec_unit()),
            final(self).spec_best() == max_nat(old(self).spec_best(), rate as nat),
            final(self).spec_unit() == old(self).spec_unit(),
            final(self).spec_show_best() == old(self).spec_show_best(),
            final(self).spec_width() == old(self).spec_width(),
    {
        let rate = rate_of(count, self.unit);
        if rate > self.best {
            self.best = rate;
        }
        rate
    }

    /// A full tick at instant `now` (milliseconds): prunes `log` to the
    /// trailing window, converts what remains to a rate, updates the best
    /// and returns the reading's text.
    pub fn sample(&mut self, log: &mut TimestampLog, now: u64) -> (r: String)
        ensures
            final(log)@ == window_of(old(log)@, window_start(now)),
            final(self).spec_best() == max_nat(
                old(self).spec_best(),
                rate_spec(final(log)@.len(), old(self).spec_unit()),
            ),
            final(self).spec_unit() == old(self).spec_unit(),
            final(self).spec_show_best() == old(self).spec_show_best(),
            final(self).spec_width() == old(self).spec_width(),
            r@ == reading_text(
                rate_spec(final(log)@.len(), old(self).spec_unit()),
                final(self).spec_best(),
                old(self).spec_show_best(),
                old(self).spec_width(),
            ),
    {
        let threshold = if now >= WINDOW_MS {
            now - WINDOW_MS
        } else {
            0
        };
        let count = log.prune_and_count(threshold);
        let rate = self.tick(count);
        format_reading(rate, self.best, self.show_best, self.width)
    }
}

/// The best after each tick is the largest rate of the ticks so far, or 0
/// before any rate above 0.
pub proof fn lemma_best_is_running_max(rates: Seq<nat>)
    ensures
        forall|i: int| 0 <= i < rates.len() ==> rates[i] <= best_after(rates),
        best_after(rates) == 0 || exists|i: int|
            0 <= i < rates.len() && rates[i] == best_after(rates),
    decreases rates.len(),
{
    if rates.len() > 0 {
        let prev = rates.drop_last();
        lemma_best_is_running_max(prev);
        assert forall|i: int| 0 <= i < rates.len() implies rates[i] <= best_after(rates) by {
            if i < rates.len() - 1 {
                assert(rates[i] == prev[i]);
            }
        }
        if best_after(rates) != 0 && best_after(rates) != rates.last() {
            let j = choose|j: int| 0 <= j < prev.len() && prev[j] == best_after(prev);
            assert(rates[j] == prev[j]);
        }
    }
}

/// The best never goes down from one tick to a later one.
pub proof fn lemma_best_never_decreases(rates: Seq<nat>, i: int, j: int)
    requires
        0 <= i <= j <= rates.len(),
    ensures
        best_after(rates.take(i)) <= best_after(rates.take(j)),
    decreases j - i,
{
    if i < j {
        lemma_best_never_decreases(rates, i, j - 1);
        assert(rates.take(j).drop_last() =~= rates.take(j - 1));
    }
}

/// A sampler whose best stands for the ticks `rates` holds, after a tick
/// with `count` events, the best of those ticks and this one.
pub proof fn lemma_tick_extends_best(rates: Seq<nat>, best: nat, count: nat, unit: Unit)
    requires
        best == best_after(rates),
    ensures
        max_nat(best, rate_spec(count, unit)) == best_after(rates.push(rate_spec(count, unit))),
{
    assert(rates.push(rate_spec(count, unit)).drop_last() =~= rates);
}

} // verus!
