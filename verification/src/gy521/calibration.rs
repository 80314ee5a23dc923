use crate::gy521::decoding::{RawAxes, RawSample};
use crate::gy521::driver::GY521;
use crate::gy521::sampling::Cadence;
use crate::utilites::Memory;
use vstd::prelude::*;

verus! {

/// A reading together with the time at which its burst was begun, in
/// nanoseconds since the start of the session.
#[derive(Clone, Copy, Debug, PartialEq, Eq, Structural)]
pub struct TimedSample {
    pub sample: RawSample,
    pub elapsed_nanos: u64,
}

/// A failure of the bus, with what the transport said of it and the time at
/// which it showed, in nanoseconds since the start of the session.
#[derive(Clone, Debug)]
pub struct TimedError {
    pub message: String,
    pub elapsed_nanos: u64,
}

/// One of the six values that a calibration averages.
#[derive(Clone, Copy, Debug, PartialEq, Eq, Structural)]
pub enum Channel {
    AccelerationX,
    AccelerationY,
    AccelerationZ,
    AngularVelocityX,
    AngularVelocityY,
    AngularVelocityZ,
}

impl RawSample {
    /// The value of one channel of the reading.
    pub open spec fn channel(&self, channel: Channel) -> int {
        match channel {
            Channel::AccelerationX => self.acceleration.x as int,
            Channel::AccelerationY => self.acceleration.y as int,
            Channel::AccelerationZ => self.acceleration.z as int,
            Channel::AngularVelocityX => self.angular_velocity.x as int,
            Channel::AngularVelocityY => self.angular_velocity.y as int,
            Channel::AngularVelocityZ => self.angular_velocity.z as int,
        }
    }
}

/// The sum of one channel over all the samples.
pub open spec fn total(samples: Seq<TimedSample>, channel: Channel) -> int
    decreases samples.len(),
{
    if samples.len() == 0 {
        0
    } else {
        total(samples.drop_last(), channel) + samples.last().sample.channel(channel)
    }
}

/// What the channel reads on a sensor at rest that needs no correction: one g,
/// in register counts, along the accelerometer's z axis, and zero elsewhere.
pub open spec fn at_rest(channel: Channel, counts_per_g: int) -> int {
    match channel {
        Channel::AccelerationZ => counts_per_g,
        _ => 0,
    }
}

/// Three sums, one for each axis.
#[derive(Clone, Copy, Debug, PartialEq, Eq, Structural)]
pub struct AxisTotals {
    pub x: i128,
    pub y: i128,
    pub z: i128,
}

/// The outcome of a calibration, kept exact: for each channel the sum, over
/// all samples, of what the sensor should have read at rest less what it did
/// read, in register counts.
///
/// A channel's offset in register counts is its sum divided by `samples`.
#[derive(Clone, Copy, Debug, PartialEq, Eq, Structural)]
pub struct Bias {
    pub acceleration: AxisTotals,
    pub angular_velocity: AxisTotals,
    /// The number of samples summed; never zero.
    pub samples: usize,
}

impl Bias {
    /// The sum held for one channel.
    pub open spec fn channel(&self, channel: Channel) -> int {
        match channel {
            Channel::AccelerationX => self.acceleration.x as int,
            Channel::AccelerationY => self.acceleration.y as int,
            Channel::AccelerationZ => self.acceleration.z as int,
            Channel::AngularVelocityX => self.angular_velocity.x as int,
            Channel::AngularVelocityY => self.angular_velocity.y as int,
            Channel::AngularVelocityZ => self.angular_velocity.z as int,
        }
    }

    /// What the bias of `samples` holds for one channel: as many times the
    /// reading at rest as there are samples, less the sum of the readings.
    pub open spec fn expected(samples: Seq<TimedSample>, channel: Channel, counts_per_g: int)
        -> int {
        samples.len() * at_rest(channel, counts_per_g) - total(samples, channel)
    }

    /// Whether this is the bias of `samples`.
    pub open spec fn is_bias_of(&self, samples: Seq<TimedSample>, counts_per_g: int) -> bool {
        &&& self.samples == samples.len()
        &&& forall|channel: Channel| #[trigger]
            self.channel(channel) == Self::expected(samples, channel, counts_per_g)
    }
}

/// Why a calibration gave no bias.
#[derive(Clone, Copy, Debug, PartialEq, Eq, Structural)]
pub enum CalibrationError {
    /// No sample was collected, so there is nothing to average.
    InsufficientSamples,
}

impl CalibrationError {
    /// What is wrong, in words.
    pub fn message(&self) -> (text: &'static str)
        ensures
            text@ == match self {
                CalibrationError::InsufficientSamples => "Insufficient samples to calibrate."@,
            },
    {
        match self {
            CalibrationError::InsufficientSamples => "Insufficient samples to calibrate.",
        }
    }
}

/// The sums of the first `n` samples, and their bounds.
spec fn partial_sums(
    samples: Seq<TimedSample>,
    n: int,
    acceleration: AxisTotals,
    angular_velocity: AxisTotals,
) -> bool {
    let seen = samples.take(n);
    &&& acceleration.x == total(seen, Channel::AccelerationX)
    &&& acceleration.y == total(seen, Channel::AccelerationY)
    &&& acceleration.z == total(seen, Channel::AccelerationZ)
    &&& angular_velocity.x == total(seen, Channel::AngularVelocityX)
    &&& angular_velocity.y == total(seen, Channel::AngularVelocityY)
    &&& angular_velocity.z == total(seen, Channel::AngularVelocityZ)
    &&& -32768 * n <= acceleration.x <= 32767 * n
    &&& -32768 * n <= acceleration.y <= 32767 * n
    &&& -32768 * n <= acceleration.z <= 32767 * n
    &&& -32768 * n <= angular_velocity.x <= 32767 * n
    &&& -32768 * n <= angular_velocity.y <= 32767 * n
    &&& -32768 * n <= angular_velocity.z <= 32767 * n
}

proof fn lemma_total_step(samples: Seq<TimedSample>, n: int, channel: Channel)
    requires
        0 <= n < samples.len(),
    ensures
        total(samples.take(n + 1), channel) == total(samples.take(n), channel)
            + samples[n].sample.channel(channel),
{
    assert(samples.take(n + 1).drop_last() =~= samples.take(n));
}

fn add_axes(sums: AxisTotals, reading: RawAxes, Ghost(n): Ghost<int>) -> (next: AxisTotals)
    requires
        0 <= n <= usize::MAX,
        -32768 * n <= sums.x <= 32767 * n,
        -32768 * n <= sums.y <= 32767 * n,
        -32768 * n <= sums.z <= 32767 * n,
    ensures
        next.x == sums.x + reading.x,
        next.y == sums.y + reading.y,
        next.z == sums.z + reading.z,
{
    AxisTotals {
        x: sums.x + reading.x as i128,
        y: sums.y + reading.y as i128,
        z: sums.z + reading.z as i128,
    }
}

impl GY521 {
    /// Estimates the sensor's bias from samples taken at rest: for each channel
    /// the reading at rest, zero or on the accelerometer's z axis one g, less
    /// the mean of the samples, held as the sum over all samples. There is no
    /// bias exactly when there is no sample.
    pub fn calibrate(&self, samples: &Memory<TimedSample>) -> (bias: Result<
        Bias,
        CalibrationError,
    >)
        requires
            self.accelerometer_sensitivity.scale_factor <= u32::MAX,
        ensures
            bias.is_err() <==> samples@.len() == 0,
            bias matches Err(error) ==> error == CalibrationError::InsufficientSamples,
            bias matches Ok(found) ==> found.is_bias_of(
                samples@,
                self.accelerometer_sensitivity.scale_factor as int,
            ),
    {
        let count: usize = samples.len();
        if count == 0 {
            return Err(CalibrationError::InsufficientSamples);
        }
        let mut acceleration = AxisTotals { x: 0, y: 0, z: 0 };
        let mut angular_velocity = AxisTotals { x: 0, y: 0, z: 0 };
        let mut index: usize = 0;
        while index < count
            invariant
                index <= count,
                count == samples@.len(),
                partial_sums(samples@, index as int, acceleration, angular_velocity),
            decreases count - index,
        {
            proof {
                lemma_total_step(samples@, index as int, Channel::AccelerationX);
                lemma_total_step(samples@, index as int, Channel::AccelerationY);
                lemma_total_step(samples@, index as int, Channel::AccelerationZ);
                lemma_total_step(samples@, index as int, Channel::AngularVelocityX);
                lemma_total_step(samples@, index as int, Channel::AngularVelocityY);
                lemma_total_step(samples@, index as int, Channel::AngularVelocityZ);
            }
            match samples.get(index) {
                Some(entry) => {
                    acceleration =
                    add_axes(acceleration, entry.sample.acceleration, Ghost(index as int));
                    angular_velocity =
                    add_axes(angular_velocity, entry.sample.angular_velocity, Ghost(index as int));
                },
                None => {
                    assert(false);
                },
            }
            index += 1;
        }
        assert(samples@.take(count as int) =~= samples@);
        let counts_per_g: u32 = self.accelerometer_sensitivity.scale_factor as u32;
        assert(count * counts_per_g <= usize::MAX * u32::MAX) by (nonlinear_arith)
            requires
                0 <= count <= usize::MAX,
                0 <= counts_per_g <= u32::MAX,
        ;
        let at_rest_total: i128 = (count as i128) * (counts_per_g as i128);
        let found = Bias {
            acceleration: AxisTotals {
                x: -acceleration.x,
                y: -acceleration.y,
                z: at_rest_total - acceleration.z,
            },
            angular_velocity: AxisTotals {
                x: -angular_velocity.x,
                y: -angular_velocity.y,
                z: -angular_velocity.z,
            },
            samples: count,
        };
        proof {
            let per_g = self.accelerometer_sensitivity.scale_factor as int;
            assert(count * 0 == 0) by (nonlinear_arith);
            assert forall|channel: Channel| #[trigger]
                found.channel(channel) == Bias::expected(samples@, channel, per_g) by {
                match channel {
                    Channel::AccelerationX => {},
                    Channel::AccelerationY => {},
                    Channel::AccelerationZ => {},
                    Channel::AngularVelocityX => {},
                    Channel::AngularVelocityY => {},
                    Channel::AngularVelocityZ => {},
                }
            }
        }
        Ok(found)
    }
}

/// The bookkeeping of a calibration run: which samples to keep, for how long to
/// go on, and when to report progress. The caller owns the clock, the bus and
/// the cancellation signal, and tells the run what they show.
///
/// All times are nanoseconds elapsed since the run began.
pub struct CalibrationRun {
    sampling: Cadence,
    status: Cadence,
    duration_nanos: u64,
    samples: Memory<TimedSample>,
    errors: Memory<TimedError>,
}

impl CalibrationRun {
    /// The cadence at which samples are kept: the first at once, then one for
    /// every sampling period elapsed.
    pub closed spec fn sampling(&self) -> Cadence {
        self.sampling
    }

    /// The cadence at which progress is reported, first after one period.
    pub closed spec fn status(&self) -> Cadence {
        self.status
    }

    /// The time after which the run takes no more samples.
    pub closed spec fn duration(&self) -> nat {
        self.duration_nanos as nat
    }

    /// The log of the samples kept.
    pub closed spec fn log(&self) -> Memory<TimedSample> {
        self.samples
    }

    /// The log of the bus failures met.
    pub closed spec fn error_log(&self) -> Memory<TimedError> {
        self.errors
    }

    /// A run that keeps the newest `capacity` samples, at most one for each
    /// sampling period, and apart from them the newest `capacity` bus failures;
    /// that ends after `duration_nanos`, and reports once for each status
    /// period.
    pub fn new(
        capacity: usize,
        sampling_period_nanos: u64,
        duration_nanos: u64,
        status_period_nanos: u64,
    ) -> (run: Self)
        ensures
            run.sampling().period() == sampling_period_nanos,
            run.sampling().first() == 0,
            run.sampling().passed() == 0,
            run.status().period() == status_period_nanos,
            run.status().first() == 1,
            run.status().passed() == 0,
            run.duration() == duration_nanos,
            run.log()@ == Seq::<TimedSample>::empty(),
            run.log().capacity() == capacity,
            run.log().pushes() == 0,
            run.error_log()@ == Seq::<TimedError>::empty(),
            run.error_log().capacity() == capacity,
            run.error_log().pushes() == 0,
    {
        CalibrationRun {
            sampling: Cadence::starting_now(sampling_period_nanos),
            status: Cadence::starting_after_one_period(status_period_nanos),
            duration_nanos,
            samples: Memory::new(capacity),
            errors: Memory::new(capacity),
        }
    }

    /// Whether the run goes on: until its duration has elapsed or it is
    /// cancelled, whichever comes first.
    pub fn proceeds(&self, elapsed_nanos: u64, cancelled: bool) -> (goes_on: bool)
        ensures
            goes_on == (!cancelled && elapsed_nanos < self.duration()),
    {
        !cancelled && elapsed_nanos < self.duration_nanos
    }

    /// Offers the run a sample whose burst began at `elapsed_nanos`. It is kept
    /// exactly when the time for the next sample has come: the sample numbered
    /// `n`, counted from zero, no sooner than `n` sampling periods into the
    /// run. A sample that is kept goes to the end of the log, from which the
    /// oldest leaves if the log is full, so that the log never holds more than
    /// its capacity.
    pub fn offer(&mut self, sample: RawSample, elapsed_nanos: u64) -> (kept: bool)
        requires
            old(self).log().pushes() < usize::MAX,
        ensures
            kept == (elapsed_nanos >= old(self).sampling().due()),
            final(self).sampling().period() == old(self).sampling().period(),
            final(self).sampling().first() == old(self).sampling().first(),
            final(self).sampling().passed() == old(self).sampling().passed() + if kept {
                1nat
            } else {
                0nat
            },
            final(self).status() == old(self).status(),
            final(self).duration() == old(self).duration(),
            final(self).error_log() == old(self).error_log(),
            final(self).log().capacity() == old(self).log().capacity(),
            kept ==> final(self).log()@ == crate::utilites::retained_after_push(
                old(self).log()@,
                old(self).log().capacity(),
                TimedSample { sample, elapsed_nanos },
            ) && final(self).log().pushes() == old(self).log().pushes() + 1,
            !kept ==> final(self).log() == old(self).log(),
    {
        if self.sampling.accept(elapsed_nanos) {
            self.samples.push(TimedSample { sample, elapsed_nanos });
            true
        } else {
            false
        }
    }

    /// Whether a progress report is due at `elapsed_nanos`: the report numbered
    /// `n`, counted from one, once `n` status periods have elapsed. At most one
    /// report falls due with each call.
    pub fn status_due(&mut self, elapsed_nanos: u64) -> (due: bool)
        ensures
            due == (elapsed_nanos >= old(self).status().due()),
            final(self).status().period() == old(self).status().period(),
            final(self).status().first() == old(self).status().first(),
            final(self).status().passed() == old(self).status().passed() + if due {
                1nat
            } else {
                0nat
            },
            final(self).sampling() == old(self).sampling(),
            final(self).duration() == old(self).duration(),
            final(self).log() == old(self).log(),
            final(self).error_log() == old(self).error_log(),
    {
        self.status.accept(elapsed_nanos)
    }

    /// Notes a bus failure that showed at `elapsed_nanos`. It goes to the end of
    /// the log of failures, from which the oldest leaves if that log is full.
    /// The run goes on: a failure of the bus ends no calibration.
    pub fn note_error(&mut self, message: String, elapsed_nanos: u64)
        requires
            old(self).error_log().pushes() < usize::MAX,
        ensures
            final(self).error_log()@ == crate::utilites::retained_after_push(
                old(self).error_log()@,
                old(self).error_log().capacity(),
                TimedError { message, elapsed_nanos },
            ),
            final(self).error_log().pushes() == old(self).error_log().pushes() + 1,
            final(self).error_log().capacity() == old(self).error_log().capacity(),
            final(self).sampling() == old(self).sampling(),
            final(self).status() == old(self).status(),
            final(self).duration() == old(self).duration(),
            final(self).log() == old(self).log(),
    {
        self.errors.push(TimedError { message, elapsed_nanos });
    }

    /// The samples kept so far, oldest first.
    pub fn samples(&self) -> (log: &Memory<TimedSample>)
        ensures
            *log == self.log(),
    {
        &self.samples
    }

    /// The bus failures noted so far, oldest first.
    pub fn errors(&self) -> (log: &Memory<TimedError>)
        ensures
            *log == self.error_log(),
    {
        &self.errors
    }
}

/// The sum of a channel that reads the same in every sample is that reading
/// times the number of samples.
pub proof fn lemma_total_of_constant(samples: Seq<TimedSample>, channel: Channel, reading: int)
    requires
        forall|i: int| 0 <= i < samples.len() ==> (#[trigger] samples[i]).sample.channel(channel)
            == reading,
    ensures
        total(samples, channel) == samples.len() * reading,
    decreases samples.len(),
{
    if samples.len() == 0 {
        assert(0 * reading == 0) by (nonlinear_arith);
    } else {
        let earlier = samples.drop_last();
        assert forall|i: int| 0 <= i < earlier.len() implies (#[trigger] earlier[i]).sample.channel(
            channel,
        ) == reading by {
            assert(earlier[i] == samples[i]);
        }
        lemma_total_of_constant(earlier, channel, reading);
        assert(samples.last() == samples[samples.len() - 1]);
        assert((samples.len() - 1) * reading + reading == samples.len() * reading)
            by (nonlinear_arith);
    }
}

/// A channel that reads in every sample what it should read at rest has no
/// bias. Samples that all show exactly one g on the accelerometer's z axis
/// give that axis the bias zero, and not minus one g.
pub proof fn lemma_unbiased_channel(
    samples: Seq<TimedSample>,
    channel: Channel,
    counts_per_g: int,
)
    requires
        forall|i: int| 0 <= i < samples.len() ==> (#[trigger] samples[i]).sample.channel(channel)
            == at_rest(channel, counts_per_g),
    ensures
        Bias::expected(samples, channel, counts_per_g) == 0,
{
    lemma_total_of_constant(samples, channel, at_rest(channel, counts_per_g));
}

/// A channel that is off by the same amount in every sample has exactly the
/// opposite of that amount as its bias per sample: adding the bias to any of
/// the readings gives the reading at rest.
pub proof fn lemma_constant_bias(
    samples: Seq<TimedSample>,
    channel: Channel,
    counts_per_g: int,
    excess: int,
)
    requires
        forall|i: int| 0 <= i < samples.len() ==> (#[trigger] samples[i]).sample.channel(channel)
            == at_rest(channel, counts_per_g) + excess,
    ensures
        Bias::expected(samples, channel, counts_per_g) == samples.len() * (-excess),
{
    let rest = at_rest(channel, counts_per_g);
    lemma_total_of_constant(samples, channel, rest + excess);
    assert(samples.len() * rest - samples.len() * (rest + excess) == samples.len() * (-excess))
        by (nonlinear_arith);
}

/// Calibrating twice changes nothing the second time. Of samples that are off
/// by the same amount throughout, the first pass finds as offset exactly the
/// opposite of that amount; and samples corrected by that offset have no bias
/// left, so a second pass adds nothing to it.
pub proof fn lemma_second_pass_adds_nothing(
    samples: Seq<TimedSample>,
    corrected: Seq<TimedSample>,
    channel: Channel,
    counts_per_g: int,
    excess: int,
    offset: int,
)
    requires
        samples.len() > 0,
        forall|i: int| 0 <= i < samples.len() ==> (#[trigger] samples[i]).sample.channel(channel)
            == at_rest(channel, counts_per_g) + excess,
        offset * samples.len() == Bias::expected(samples, channel, counts_per_g),
        corrected.len() == samples.len(),
        forall|i: int| 0 <= i < corrected.len() ==> (#[trigger] corrected[i]).sample.channel(
            channel,
        ) == samples[i].sample.channel(channel) + offset,
    ensures
        offset == -excess,
        Bias::expected(corrected, channel, counts_per_g) == 0,
{
    lemma_constant_bias(samples, channel, counts_per_g, excess);
    let count = samples.len() as int;
    assert(offset == -excess) by (nonlinear_arith)
        requires
            count > 0,
            offset * count == count * (-excess),
    ;
    assert forall|i: int| 0 <= i < corrected.len() implies (#[trigger] corrected[i]).sample.channel(
        channel,
    ) == at_rest(channel, counts_per_g) by {
        assert(samples[i].sample.channel(channel) == at_rest(channel, counts_per_g) + excess);
    }
    lemma_unbiased_channel(corrected, channel, counts_per_g);
}

} // verus!
