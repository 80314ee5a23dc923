use vstd::prelude::*;

verus! {

/// A gate that lets events through at a fixed cadence: the event numbered `n`,
/// counted from `first`, passes once `n` periods have elapsed.
///
/// Times are nanoseconds elapsed since the cadence began.
pub struct Cadence {
    period_nanos: u64,
    next_due: u128,
    first: Ghost<nat>,
    passed: Ghost<nat>,
}

impl Cadence {
    /// The time between two events that pass, in nanoseconds.
    pub closed spec fn period(&self) -> nat {
        self.period_nanos as nat
    }

    /// The number of events that have passed.
    pub closed spec fn passed(&self) -> nat {
        self.passed@
    }

    /// The number of periods that must elapse before the first event passes.
    pub closed spec fn first(&self) -> nat {
        self.first@
    }

    /// The elapsed time from which the next event passes.
    pub open spec fn due(&self) -> nat {
        (self.first() + self.passed()) * self.period()
    }

    #[verifier::type_invariant]
    spec fn wf(&self) -> bool {
        &&& self.first@ <= 1
        &&& self.next_due == (self.first@ + self.passed@) * self.period_nanos
        &&& self.next_due <= 2 * u64::MAX
    }

    /// A cadence whose first event passes at once.
    pub fn starting_now(period_nanos: u64) -> (cadence: Self)
        ensures
            cadence.period() == period_nanos,
            cadence.first() == 0,
            cadence.passed() == 0,
    {
        assert(0 * period_nanos == 0) by (nonlinear_arith);
        Cadence { period_nanos, next_due: 0, first: Ghost(0), passed: Ghost(0) }
    }

    /// A cadence whose first event passes after one period.
    pub fn starting_after_one_period(period_nanos: u64) -> (cadence: Self)
        ensures
            cadence.period() == period_nanos,
            cadence.first() == 1,
            cadence.passed() == 0,
    {
        assert(1 * period_nanos == period_nanos) by (nonlinear_arith);
        Cadence { period_nanos, next_due: period_nanos as u128, first: Ghost(1), passed: Ghost(0) }
    }

    /// Decides whether an event at `elapsed_nanos` passes. It does exactly when
    /// the time due has been reached, and then the next is due a period later.
    pub fn accept(&mut self, elapsed_nanos: u64) -> (accepted: bool)
        ensures
            accepted == (elapsed_nanos >= old(self).due()),
            final(self).passed() == old(self).passed() + if accepted {
                1nat
            } else {
                0nat
            },
            final(self).period() == old(self).period(),
            final(self).first() == old(self).first(),
            final(self).due() == old(self).due() + if accepted {
                old(self).period()
            } else {
                0nat
            },
    {
        proof {
            use_type_invariant(&*self);
        }
        if elapsed_nanos as u128 >= self.next_due {
            let ghost before = self.first@ + self.passed@;
            let ghost period = self.period_nanos as int;
            assert((before + 1) * period == before * period + period) by (nonlinear_arith);
            *self = Cadence {
                period_nanos: self.period_nanos,
                next_due: self.next_due + self.period_nanos as u128,
                first: self.first,
                passed: Ghost((self.passed@ + 1) as nat),
            };
            true
        } else {
            false
        }
    }
}

/// The number of events of `stream` that a cadence lets through, when `due`
/// is the elapsed time from which the next one passes.
pub open spec fn passing(period: nat, due: nat, stream: Seq<nat>) -> nat
    decreases stream.len(),
{
    if stream.len() == 0 {
        0
    } else if stream[0] >= due {
        1 + passing(period, due + period, stream.drop_first())
    } else {
        passing(period, due, stream.drop_first())
    }
}

/// However densely the events arrive, no more pass than periods fit into the
/// time they span: if every event lies before `horizon`, the events that pass
/// are due one period apart and all before `horizon` too.
pub proof fn lemma_passing_is_bounded(period: nat, due: nat, stream: Seq<nat>, horizon: nat)
    requires
        period > 0,
        forall|i: int| 0 <= i < stream.len() ==> stream[i] < horizon,
    ensures
        passing(period, due, stream) > 0 ==> due + (passing(period, due, stream) - 1) * period
            < horizon,
        passing(period, due, stream) <= stream.len(),
    decreases stream.len(),
{
    if stream.len() > 0 {
        let rest = stream.drop_first();
        assert forall|i: int| 0 <= i < rest.len() implies rest[i] < horizon by {
            assert(rest[i] == stream[i + 1]);
        }
        if stream[0] >= due {
            lemma_passing_is_bounded(period, due + period, rest, horizon);
            let later = passing(period, due + period, rest);
            if later > 0 {
                assert(due + later * period == due + period + (later - 1) * period)
                    by (nonlinear_arith);
            } else {
                assert(0 * period == 0) by (nonlinear_arith);
            }
        } else {
            lemma_passing_is_bounded(period, due, rest, horizon);
        }
    }
}

/// Events that arrive no further apart than a period, the first no later than
/// it is due, keep the cadence fed: an event passes for every period that the
/// stream outlasts. With `lemma_passing_is_bounded` this fixes the count to
/// within one.
pub proof fn lemma_passing_keeps_up(period: nat, due: nat, stream: Seq<nat>, periods: nat)
    requires
        period > 0,
        stream.len() > 0,
        forall|i: int| 0 <= i < stream.len() - 1 ==> stream[i] <= #[trigger] stream[i + 1]
            <= stream[i] + period,
        stream[0] <= due + period,
        stream.last() >= due + periods * period,
    ensures
        passing(period, due, stream) >= periods,
    decreases stream.len(),
{
    if periods > 0 {
        let rest = stream.drop_first();
        assert(periods * period >= period) by (nonlinear_arith)
            requires
                periods >= 1,
                period > 0,
        ;
        if stream.len() == 1 {
            assert(stream.last() == stream[0]);
            assert(stream[0] >= due);
            assert(periods == 1 && stream[0] == due + period) by (nonlinear_arith)
                requires
                    stream[0] <= due + period,
                    stream[0] >= due + periods * period,
                    periods >= 1,
                    period > 0,
            ;
            assert(passing(period, due + period, rest) >= 0);
        } else {
            assert(rest.last() == stream.last());
            assert(rest[0] == stream[1]);
            assert forall|i: int| 0 <= i < rest.len() - 1 implies rest[i] <= #[trigger] rest[i
                + 1] <= rest[i] + period by {
                assert(rest[i] == stream[i + 1]);
                assert(rest[i + 1] == stream[i + 1 + 1]);
            }
            if stream[0] >= due {
                assert(due + periods * period == due + period + (periods - 1) * period)
                    by (nonlinear_arith);
                assert(stream[0int + 1] <= stream[0] + period);
                lemma_passing_keeps_up(period, due + period, rest, (periods - 1) as nat);
            } else {
                assert(stream[0int + 1] <= stream[0] + period);
                lemma_passing_keeps_up(period, due, rest, periods);
            }
        }
    }
}

} // verus!
