use vstd::prelude::*;
use circular_buffer::CircularBuffer;

verus! {

/// Length of the sliding window: one second of samples at 60 Hz.
pub const WINDOW_LEN: usize = 60;

#[verifier::external_type_specification]
#[verifier::external_body]
#[verifier::reject_recursive_types(T)]
pub struct ExCircularBuffer<const N: usize, T>(CircularBuffer<N, T>);

/// The items of a buffer, front (oldest) first.
pub uninterp spec fn buffer_items(b: CircularBuffer<60, u64>) -> Seq<u64>;

/// Relies on circular_buffer::CircularBuffer::new: a buffer with no items.
#[verifier::external_body]
fn buffer_new() -> (r: CircularBuffer<60, u64>)
    ensures
        buffer_items(r) == Seq::<u64>::empty(),
{
    CircularBuffer::<60, u64>::new()
}

/// Relies on circular_buffer::CircularBuffer::fill: afterwards the whole capacity holds
/// the value.
#[verifier::external_body]
fn buffer_fill(b: &mut CircularBuffer<60, u64>, value: u64)
    ensures
        buffer_items(*final(b)) == Seq::new(60, |_i: int| value),
{
    b.fill(value)
}

/// Relies on circular_buffer::CircularBuffer::push_back: appends at the back, and when
/// the buffer is at capacity drops the front item first.
#[verifier::external_body]
fn buffer_push_back(b: &mut CircularBuffer<60, u64>, item: u64)
    ensures
        buffer_items(*old(b)).len() >= 60 ==> buffer_items(*final(b)) == buffer_items(
            *old(b),
        ).drop_first().push(item),
        buffer_items(*old(b)).len() < 60 ==> buffer_items(*final(b)) == buffer_items(
            *old(b),
        ).push(item),
{
    b.push_back(item)
}

/// Relies on circular_buffer::CircularBuffer::get: the item at an index counted from the
/// front, if there is one.
#[verifier::external_body]
fn buffer_get(b: &CircularBuffer<60, u64>, index: usize) -> (r: Option<u64>)
    ensures
        index < buffer_items(*b).len() ==> r == Some(buffer_items(*b)[index as int]),
        index >= buffer_items(*b).len() ==> r is None,
{
    b.get(index).copied()
}

/// Number of frequencies that are monitored below the Nyquist bin: all but the lowest ten.
pub open spec fn monitored_count(sample_hz: int) -> int {
    sample_hz / 2 - 10
}

/// The frequency bins to monitor at a sample rate, counted down from the Nyquist bin
/// `sample_hz / 2`: the `i`-th holds `sample_hz / 2 - i`.
pub fn monitored_bins(sample_hz: usize) -> (r: Vec<usize>)
    requires
        sample_hz >= 20,
    ensures
        r@.len() == monitored_count(sample_hz as int),
        forall|i: int| 0 <= i < r@.len() ==> #[trigger] r@[i] == sample_hz / 2 - i,
{
    let nyquist = sample_hz / 2;
    let count = nyquist - 10;
    let mut bins: Vec<usize> = Vec::new();
    let mut i: usize = 0;
    while i < count
        invariant
            count == nyquist - 10,
            nyquist == sample_hz / 2,
            i <= count,
            bins@.len() == i,
            forall|k: int| 0 <= k < i ==> #[trigger] bins@[k] == nyquist - k,
        decreases count - i,
    {
        bins.push(nyquist - i);
        i = i + 1;
    }
    bins
}

/// A full window of the most recent samples, kept as the bit patterns of the values,
/// together with the number of samples that have gone through it.
///
/// The window starts out full of zeros, so that the oldest sample is always defined.
pub struct SampleWindow {
    samples: CircularBuffer<60, u64>,
    count: u64,
}

impl SampleWindow {
    /// The samples in the window, oldest first.
    pub closed spec fn items(&self) -> Seq<u64> {
        buffer_items(self.samples)
    }

    /// How many samples have been pushed since the window was made.
    pub closed spec fn pushed(&self) -> nat {
        self.count as nat
    }

    pub open spec fn wf(&self) -> bool {
        self.items().len() == WINDOW_LEN
    }

    pub fn new() -> (r: Self)
        ensures
            r.wf(),
            r.items() == Seq::new(60, |_i: int| 0u64),
            r.pushed() == 0,
    {
        let mut samples = buffer_new();
        buffer_fill(&mut samples, 0);
        SampleWindow { samples, count: 0 }
    }

    /// The oldest sample in the window: the one that the next push drops.
    pub fn oldest(&self) -> (r: u64)
        requires
            self.wf(),
        ensures
            r == self.items()[0],
    {
        match buffer_get(&self.samples, 0) {
            Some(v) => v,
            None => 0,
        }
    }

    /// Pushes a sample, drops the oldest one and returns it.
    pub fn slide(&mut self, sample: u64) -> (evicted: u64)
        requires
            old(self).wf(),
            old(self).pushed() < u64::MAX,
        ensures
            final(self).wf(),
            evicted == old(self).items()[0],
            final(self).items() == old(self).items().drop_first().push(sample),
            final(self).pushed() == old(self).pushed() + 1,
    {
        let evicted = self.oldest();
        buffer_push_back(&mut self.samples, sample);
        self.count = self.count + 1;
        evicted
    }

    pub fn count(&self) -> (r: u64)
        ensures
            r == self.pushed(),
    {
        self.count
    }

    /// Whether the window has been filled once with real samples, so that each further
    /// sample adds to the power estimate.
    pub fn accumulating(&self) -> (r: bool)
        ensures
            r == (self.pushed() >= WINDOW_LEN),
    {
        self.count >= 60
    }

    /// The number of samples past one full window, which divides the accumulated power.
    /// There is none until more than a full window has been seen.
    pub fn frames_past_window(&self) -> (r: Option<u64>)
        ensures
            self.pushed() <= WINDOW_LEN ==> r is None,
            self.pushed() > WINDOW_LEN ==> r == Some((self.pushed() - WINDOW_LEN) as u64),
    {
        if self.count <= 60 {
            None
        } else {
            Some(self.count - 60)
        }
    }
}

} // verus!
