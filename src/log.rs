use vstd::prelude::*;

verus! {

/// Whether a timestamp lies inside a window that starts at `threshold`.
pub open spec fn in_window(threshold: u64, stamp: u64) -> bool {
    stamp >= threshold
}

/// The timestamps of `stamps` that lie inside the window starting at
/// `threshold`, in their original order.
pub open spec fn window_of(stamps: Seq<u64>, threshold: u64) -> Seq<u64> {
    stamps.filter(|x: u64| in_window(threshold, x))
}

/// The ordered timestamps (in milliseconds) of qualifying key events.
pub struct TimestampLog {
    stamps: Vec<u64>,
}

impl View for TimestampLog {
    type V = Seq<u64>;

    closed spec fn view(&self) -> Seq<u64> {
        self.stamps@
    }
}

impl TimestampLog {
    /// An empty log.
    pub fn new() -> (r: TimestampLog)
        ensures
            r@ == Seq::<u64>::empty(),
    {
        TimestampLog { stamps: Vec::new() }
    }

    /// Number of timestamps held.
    pub fn len(&self) -> (r: usize)
        ensures
            r == self@.len(),
    {
        self.stamps.len()
    }

    /// The timestamp at position `i`.
    pub fn get(&self, i: usize) -> (r: u64)
        requires
            i < self@.len(),
        ensures
            r == self@[i as int],
    {
        self.stamps[i]
    }

    /// Adds `instant` at the end of the log.
    pub fn append(&mut self, instant: u64)
        ensures
            final(self)@ == old(self)@.push(instant),
    {
        self.stamps.push(instant);
    }

    /// Removes every timestamp strictly earlier than `threshold`, keeping
    /// the others in order, and returns how many remain.
    pub fn prune_and_count(&mut self, threshold: u64) -> (r: usize)
        ensures
            final(self)@ == window_of(old(self)@, threshold),
            r == final(self)@.len(),
    {
        let ghost old_stamps = self.stamps@;
        let mut kept: Vec<u64> = Vec::new();
        let mut i: usize = 0;
        while i < self.stamps.len()
            invariant
                self.stamps@ == old_stamps,
                i <= old_stamps.len(),
                kept@ == window_of(old_stamps.take(i as int), threshold),
            decreases old_stamps.len() - i,
        {
            let x = self.stamps[i];
            proof {
                reveal_with_fuel(Seq::filter, 1);
                assert(old_stamps.take(i + 1).drop_last() =~= old_stamps.take(i as int));
            }
            if x >= threshold {
                kept.push(x);
            }
            i = i + 1;
        }
        assert(old_stamps.take(i as int) =~= old_stamps);
        self.stamps = kept;
        self.stamps.len()
    }
}

} // verus!
