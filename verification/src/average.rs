//! A running average over a window of samples. The window is bounded by a number of samples,
//! by their age, or both; with a weight set, the average is an exponential moving average.

use crate::units::{clamp_u64, mul_div, PPM};
use std::collections::VecDeque;
use vstd::prelude::*;

verus! {

/// A value with the instant at which it was submitted.
#[derive(Clone, Copy, PartialEq, Eq, Debug, Structural)]
pub struct Sample {
    pub time: u64,
    pub value: u64,
}

/// The sum of the values of a run of samples.
pub open spec fn total(samples: Seq<Sample>) -> int
    decreases samples.len(),
{
    if samples.len() == 0 {
        0
    } else {
        total(samples.drop_last()) + samples.last().value
    }
}

/// The mean of the values of a run of samples, rounded down.
pub open spec fn mean(samples: Seq<Sample>) -> u64
    recommends
        samples.len() > 0,
{
    (total(samples) / samples.len() as int) as u64
}

/// The last `count` samples of a run, or all of them where there are fewer.
pub open spec fn last_samples(samples: Seq<Sample>, count: int) -> Seq<Sample> {
    if samples.len() > count && count >= 0 {
        samples.subrange(samples.len() - count, samples.len() as int)
    } else {
        samples
    }
}

/// Whether a sample is younger than `interval` at the instant `now`.
pub open spec fn fresh(now: u64, interval: u64) -> spec_fn(Sample) -> bool {
    |sample: Sample| sample.time + interval > now
}

/// One step of the exponential moving average: the average moves towards the sample by the
/// share `weight_ppm` of their distance, rounded towards the old average, and stays in the
/// range of `u64`.
pub open spec fn ewma_step(average: u64, sample: u64, weight_ppm: u64) -> u64 {
    if sample >= average {
        clamp_u64(average + (weight_ppm * (sample - average)) / (PPM as int))
    } else {
        clamp_u64(average - (weight_ppm * (average - sample)) / (PPM as int))
    }
}

/// What a running average is: its settings, the samples in its window, oldest first, and the
/// state of the exponential moving average.
pub struct AverageModel {
    /// The average before any sample.
    pub initial: u64,
    pub samples: Seq<Sample>,
    /// The most samples that the window holds, if bounded.
    pub max_history_size: Option<usize>,
    /// The age that a sample must stay under at a submission, if bounded.
    pub history_interval: Option<u64>,
    /// The weight of a new sample in the exponential moving average, if that is used.
    pub ewma_weight: Option<u64>,
    /// The exponential moving average.
    pub ewma: u64,
}

impl AverageModel {
    /// An average without samples.
    pub open spec fn new(
        initial: u64,
        max_history_size: Option<usize>,
        history_interval: Option<u64>,
        ewma_weight: Option<u64>,
    ) -> AverageModel {
        AverageModel {
            initial,
            samples: Seq::empty(),
            max_history_size,
            history_interval,
            ewma_weight,
            ewma: initial,
        }
    }

    /// The mean of the window; the initial value where the window is empty.
    pub open spec fn window_average(self) -> u64 {
        if self.samples.len() == 0 {
            self.initial
        } else {
            mean(self.samples)
        }
    }

    /// The average: the exponential moving average where a weight is set, else the mean of
    /// the window.
    pub open spec fn average(self) -> u64 {
        if self.ewma_weight is Some {
            self.ewma
        } else {
            self.window_average()
        }
    }

    /// The samples that stay at the instant `now` under the bound on age.
    pub open spec fn within_interval(self, samples: Seq<Sample>, now: u64) -> Seq<Sample> {
        match self.history_interval {
            Some(interval) => samples.filter(fresh(now, interval)),
            None => samples,
        }
    }

    /// The samples that stay under the bound on their number.
    pub open spec fn within_size(self, samples: Seq<Sample>) -> Seq<Sample> {
        match self.max_history_size {
            Some(size) => last_samples(samples, size as int),
            None => samples,
        }
    }

    /// The average after a sample was submitted at the instant `now`.
    pub open spec fn submit(self, value: u64, now: u64) -> AverageModel {
        AverageModel {
            samples: self.within_size(
                self.within_interval(self.samples.push(Sample { time: now, value }), now),
            ),
            ewma: match self.ewma_weight {
                Some(weight) => ewma_step(self.ewma, value, weight),
                None => self.ewma,
            },
            ..self
        }
    }

    /// The average with only its last `count` samples.
    pub open spec fn retain(self, count: usize) -> AverageModel {
        AverageModel { samples: last_samples(self.samples, count as int), ..self }
    }

    /// The average with another bound on the number of samples; samples over the bound go.
    pub open spec fn with_max_history_size(self, max_history_size: Option<usize>) -> AverageModel {
        let changed = AverageModel { max_history_size, ..self };
        AverageModel { samples: changed.within_size(self.samples), ..changed }
    }

    /// The average with another bound on the age of samples; the samples stay until the next
    /// submission.
    pub open spec fn with_history_interval(self, history_interval: Option<u64>) -> AverageModel {
        AverageModel { history_interval, ..self }
    }

    /// The average with another weight. An exponential moving average that begins starts
    /// from the mean of the window.
    pub open spec fn with_ewma_weight(self, ewma_weight: Option<u64>) -> AverageModel {
        AverageModel {
            ewma_weight,
            ewma: if self.ewma_weight is None && ewma_weight is Some {
                self.window_average()
            } else {
                self.ewma
            },
            ..self
        }
    }

    /// The average with all three settings replaced, in the order size, age, weight.
    pub open spec fn reconfigured(
        self,
        max_history_size: Option<usize>,
        history_interval: Option<u64>,
        ewma_weight: Option<u64>,
    ) -> AverageModel {
        self.with_max_history_size(max_history_size).with_history_interval(
            history_interval,
        ).with_ewma_weight(ewma_weight)
    }

    /// The window holds no more samples than its bound allows.
    pub open spec fn within_bound(self) -> bool {
        self.max_history_size matches Some(size) ==> self.samples.len() <= size
    }
}

/// The sum of a run of samples is at most as many times the largest number.
pub proof fn lemma_total_bounds(samples: Seq<Sample>)
    ensures
        0 <= total(samples) <= samples.len() * u64::MAX,
    decreases samples.len(),
{
    if samples.len() > 0 {
        lemma_total_bounds(samples.drop_last());
        assert((samples.len() - 1) * u64::MAX + u64::MAX == samples.len() * u64::MAX)
            by (nonlinear_arith);
    }
}

/// The mean of a run of samples lies between any bounds that hold of each of its values.
pub proof fn lemma_mean_between(samples: Seq<Sample>, low: u64, high: u64)
    requires
        samples.len() > 0,
        forall|i: int| 0 <= i < samples.len() ==> low <= (#[trigger] samples[i]).value <= high,
    ensures
        low <= mean(samples) <= high,
{
    lemma_total_between(samples, low, high);
    let n = samples.len() as int;
    let t = total(samples);
    assert(low <= t / n <= high) by (nonlinear_arith)
        requires
            n > 0,
            n * low <= t <= n * high,
    ;
}

proof fn lemma_total_between(samples: Seq<Sample>, low: u64, high: u64)
    requires
        forall|i: int| 0 <= i < samples.len() ==> low <= (#[trigger] samples[i]).value <= high,
    ensures
        samples.len() * low <= total(samples) <= samples.len() * high,
    decreases samples.len(),
{
    if samples.len() > 0 {
        let rest = samples.drop_last();
        assert forall|i: int| 0 <= i < rest.len() implies low <= (#[trigger] rest[i]).value
            <= high by {
            assert(rest[i] == samples[i]);
        }
        lemma_total_between(rest, low, high);
        assert(low <= samples[samples.len() - 1].value <= high);
        assert((samples.len() - 1) * low + low == samples.len() * low) by (nonlinear_arith);
        assert((samples.len() - 1) * high + high == samples.len() * high) by (nonlinear_arith);
    }
}

/// Submitting a sample, keeping the last samples and changing a setting each leave the
/// window within its bound.
pub proof fn lemma_window_stays_within_bound(
    average: AverageModel,
    value: u64,
    now: u64,
    count: usize,
    max_history_size: Option<usize>,
    history_interval: Option<u64>,
    ewma_weight: Option<u64>,
)
    ensures
        average.submit(value, now).within_bound(),
        average.within_bound() ==> average.retain(count).within_bound(),
        average.with_max_history_size(max_history_size).within_bound(),
        average.within_bound() ==> average.with_history_interval(history_interval).within_bound(),
        average.within_bound() ==> average.with_ewma_weight(ewma_weight).within_bound(),
        average.reconfigured(max_history_size, history_interval, ewma_weight).within_bound(),
{
}

/// With a weight of at most one, the exponential moving average lands between the old
/// average and the sample; a weight of zero leaves it, a weight of one takes the sample.
pub proof fn lemma_ewma_between(average: u64, sample: u64, weight_ppm: u64)
    requires
        weight_ppm <= PPM,
    ensures
        sample >= average ==> average <= ewma_step(average, sample, weight_ppm) <= sample,
        sample < average ==> sample <= ewma_step(average, sample, weight_ppm) <= average,
        weight_ppm == 0 ==> ewma_step(average, sample, weight_ppm) == average,
        weight_ppm == PPM ==> ewma_step(average, sample, weight_ppm) == sample,
{
    let distance: int = if sample >= average {
        sample - average
    } else {
        average - sample
    };
    let moved = (weight_ppm * distance) / (PPM as int);
    assert(0 <= moved <= distance && (weight_ppm == 0 ==> moved == 0) && (weight_ppm == 1_000_000
        ==> moved == distance)) by (nonlinear_arith)
        requires
            0 <= weight_ppm <= 1_000_000,
            distance >= 0,
            moved == (weight_ppm * distance) / 1_000_000,
    ;
}

/// Before any sample the average is the initial value.
pub proof fn lemma_average_without_samples(
    initial: u64,
    max_history_size: Option<usize>,
    history_interval: Option<u64>,
    ewma_weight: Option<u64>,
)
    ensures
        AverageModel::new(initial, max_history_size, history_interval, ewma_weight).average()
            == initial,
{
}

/// A running average of timed samples.
pub struct SlidingWindowAverage {
    initial: u64,
    samples: VecDeque<Sample>,
    max_history_size: Option<usize>,
    history_interval: Option<u64>,
    ewma_weight: Option<u64>,
    ewma: u64,
}

impl View for SlidingWindowAverage {
    type V = AverageModel;

    closed spec fn view(&self) -> AverageModel {
        AverageModel {
            initial: self.initial,
            samples: self.samples@,
            max_history_size: self.max_history_size,
            history_interval: self.history_interval,
            ewma_weight: self.ewma_weight,
            ewma: self.ewma,
        }
    }
}

fn moved_average(average: u64, sample: u64, weight_ppm: u64) -> (r: u64)
    ensures
        r == ewma_step(average, sample, weight_ppm),
{
    if sample >= average {
        average.saturating_add(mul_div(weight_ppm, sample - average, PPM))
    } else {
        average.saturating_sub(mul_div(weight_ppm, average - sample, PPM))
    }
}

fn keep_last(samples: &mut VecDeque<Sample>, count: usize)
    ensures
        final(samples)@ == last_samples(old(samples)@, count as int),
{
    while samples.len() > count
        invariant
            samples@.len() <= old(samples)@.len(),
            samples@.len() >= count || samples@.len() == old(samples)@.len(),
            samples@ =~= old(samples)@.subrange(
                old(samples)@.len() - samples@.len(),
                old(samples)@.len() as int,
            ),
        decreases samples@.len(),
    {
        let _ = samples.pop_front();
    }
    assert(samples@ =~= last_samples(old(samples)@, count as int));
}

fn keep_fresh(samples: &VecDeque<Sample>, now: u64, interval: u64) -> (r: VecDeque<Sample>)
    ensures
        r@ == samples@.filter(fresh(now, interval)),
{
    let mut kept: VecDeque<Sample> = VecDeque::new();
    let n = samples.len();
    let mut i: usize = 0;
    proof {
        reveal(Seq::filter);
    }
    while i < n
        invariant
            i <= n,
            n == samples@.len(),
            kept@ == samples@.take(i as int).filter(fresh(now, interval)),
        decreases n - i,
    {
        let sample = samples[i];
        proof {
            reveal(Seq::filter);
            assert(samples@.take(i + 1).drop_last() == samples@.take(i as int));
            assert(samples@.take(i + 1).last() == sample);
        }
        if sample.time as u128 + interval as u128 > now as u128 {
            kept.push_back(sample);
        }
        i = i + 1;
    }
    assert(samples@.take(n as int) == samples@);
    kept
}

impl SlidingWindowAverage {
    /// An average without samples.
    pub fn new(
        initial_value: u64,
        max_history_size: Option<usize>,
        history_interval: Option<u64>,
        ewma_weight: Option<u64>,
    ) -> (r: SlidingWindowAverage)
        ensures
            r@ == AverageModel::new(initial_value, max_history_size, history_interval, ewma_weight),
    {
        SlidingWindowAverage {
            initial: initial_value,
            samples: VecDeque::new(),
            max_history_size,
            history_interval,
            ewma_weight,
            ewma: initial_value,
        }
    }

    /// Takes in a sample at the instant `now`. Samples that are too old at that instant, or
    /// too many, leave the window.
    pub fn submit_sample(&mut self, sample: u64, now: u64)
        ensures
            final(self)@ == old(self)@.submit(sample, now),
    {
        self.samples.push_back(Sample { time: now, value: sample });
        if let Some(interval) = self.history_interval {
            self.samples = keep_fresh(&self.samples, now, interval);
        }
        if let Some(size) = self.max_history_size {
            keep_last(&mut self.samples, size);
        }
        if let Some(weight) = self.ewma_weight {
            self.ewma = moved_average(self.ewma, sample, weight);
        }
    }

    fn window_average(&self) -> (r: u64)
        ensures
            r == self@.window_average(),
    {
        let n = self.samples.len();
        if n == 0 {
            return self.initial;
        }
        let mut sum: u128 = 0;
        let mut i: usize = 0;
        while i < n
            invariant
                i <= n,
                n == self.samples@.len(),
                sum == total(self.samples@.take(i as int)),
            decreases n - i,
        {
            proof {
                assert(self.samples@.take(i + 1).drop_last() == self.samples@.take(i as int));
                lemma_total_bounds(self.samples@.take(i + 1));
                assert((i + 1) * u64::MAX <= usize::MAX * u64::MAX) by (nonlinear_arith)
                    requires
                        i + 1 <= usize::MAX,
                ;
                assert(usize::MAX * u64::MAX < u128::MAX) by (nonlinear_arith);
            }
            sum = sum + self.samples[i].value as u128;
            i = i + 1;
        }
        proof {
            assert(self.samples@.take(n as int) == self.samples@);
            lemma_total_bounds(self.samples@);
            let t = total(self.samples@);
            assert(0 <= t / (n as int) <= u64::MAX) by (nonlinear_arith)
                requires
                    n > 0,
                    0 <= t <= n * u64::MAX,
            ;
        }
        (sum / n as u128) as u64
    }

    /// The average. Before any sample it is the initial value.
    pub fn get_average(&self) -> (r: u64)
        ensures
            r == self@.average(),
    {
        match self.ewma_weight {
            Some(_) => self.ewma,
            None => self.window_average(),
        }
    }

    /// The number of samples in the window.
    pub fn len(&self) -> (r: usize)
        ensures
            r == self@.samples.len(),
    {
        self.samples.len()
    }

    /// Drops all but the last `count` samples.
    pub fn retain(&mut self, count: usize)
        ensures
            final(self)@ == old(self)@.retain(count),
    {
        keep_last(&mut self.samples, count);
    }

    /// Sets the bound on the number of samples and drops the samples over it.
    pub fn update_max_history_size(&mut self, max_history_size: Option<usize>)
        ensures
            final(self)@ == old(self)@.with_max_history_size(max_history_size),
    {
        self.max_history_size = max_history_size;
        if let Some(size) = max_history_size {
            keep_last(&mut self.samples, size);
        }
    }

    /// Sets the bound on the age of samples. It takes effect at the next submission.
    pub fn update_history_interval(&mut self, history_interval: Option<u64>)
        ensures
            final(self)@ == old(self)@.with_history_interval(history_interval),
    {
        self.history_interval = history_interval;
    }

    /// Sets the weight of the exponential moving average, or turns that average off.
    pub fn update_ewma_weight(&mut self, ewma_weight: Option<u64>)
        ensures
            final(self)@ == old(self)@.with_ewma_weight(ewma_weight),
    {
        if self.ewma_weight.is_none() && ewma_weight.is_some() {
            self.ewma = self.window_average();
        }
        self.ewma_weight = ewma_weight;
    }
}

} // verus!
