use vstd::prelude::*;

verus! {

use vstd::arithmetic::div_mod::{
    lemma_div_non_zero,
    lemma_fundamental_div_mod,
    lemma_fundamental_div_mod_converse,
    lemma_mod_add_multiples_vanish,
    lemma_mod_multiples_basic,
    lemma_small_mod,
};
use vstd::arithmetic::mul::{
    lemma_mul_by_zero_is_zero,
    lemma_mul_is_associative,
    lemma_mul_is_commutative,
    lemma_mul_is_distributive_add,
    lemma_mul_is_distributive_sub,
    lemma_mul_nonnegative,
};

/// The highest fixed scheduling priority a service may ask for.
pub const MAX_PRIORITY: i32 = 99;

/// Why the one-time real-time thread setup was refused by the host.
#[derive(Clone, Copy, Debug, PartialEq, Eq, Structural)]
pub enum RealTimeError {
    /// The set of available cores could not be read, or was empty.
    NoCores,
    /// The host refused to pin the thread to the chosen core.
    AffinityRejected,
    /// The host refused the fixed-priority scheduling class.
    PolicyRejected,
}

/// A service's period in nanoseconds, derived from its frequency in hertz.
pub open spec fn spec_period_ns(frequency: u32) -> int
    recommends
        frequency >= 1,
{
    1_000_000_000int / frequency as int
}

/// Relies on core_affinity::get_core_ids: the ids of the cores the current
/// thread may run on, or None when they cannot be retrieved.
#[verifier::external_body]
fn available_core_ids() -> (r: Option<Vec<usize>>) {
    core_affinity::get_core_ids().map(|ids| ids.iter().map(|core| core.id).collect())
}

/// Width in bits of the fixed cpu set that the host's affinity masks
/// index; a core id at or past it cannot be asked for.
const CPU_SET_BITS: usize = 1024;

/// Relies on core_affinity::set_for_current: pins the current thread to the
/// given core; returns whether the host accepted the affinity mask. The
/// bound keeps the id inside the fixed-width cpu set the call indexes, past
/// which the underlying bit-set macro reads out of bounds.
#[verifier::external_body]
fn pin_current_thread(core_id: usize) -> (r: bool)
    requires
        core_id < CPU_SET_BITS,
{
    core_affinity::set_for_current(core_affinity::CoreId { id: core_id })
}

/// Relies on scheduler::set_self_policy: moves the calling process into the
/// FIFO fixed-priority preemptive scheduling class at the given priority;
/// Err when the host refuses the change.
#[verifier::external_body]
fn set_self_fifo_policy(priority: i32) -> (r: Result<(), ()>) {
    scheduler::set_self_policy(scheduler::Policy::Fifo, priority)
}

/// The core the one-time setup pins a thread to: the first of the available
/// core ids, or NoCores when none could be retrieved or the list is empty.
pub fn first_core(core_ids: Option<Vec<usize>>) -> (r: Result<usize, RealTimeError>)
    ensures
        (r is Ok) <==> (core_ids matches Some(ids) && ids@.len() >= 1),
        core_ids matches Some(ids) ==> (ids@.len() >= 1 ==> r == Ok::<usize, RealTimeError>(
            ids@[0],
        )),
        r matches Err(e) ==> e == RealTimeError::NoCores,
{
    match core_ids {
        None => Err(RealTimeError::NoCores),
        Some(ids) => {
            if ids.len() == 0 {
                Err(RealTimeError::NoCores)
            } else {
                Ok(ids[0])
            }
        },
    }
}

/// The uniform capability every periodic unit of work implements: a name, a
/// fixed scheduling priority, a frequency, the period derived from it, and
/// a one-time setup that pins the calling thread to a fixed core and raises
/// it to a fixed-priority preemptive scheduling class. The setup runs once,
/// at the start of the service's dedicated thread, before its command loop.
pub trait RealTime {
    spec fn spec_name(&self) -> Seq<char>;

    spec fn spec_priority(&self) -> i32;

    spec fn spec_frequency(&self) -> u32;

    fn name(&self) -> (r: &str)
        ensures
            r@ == self.spec_name(),
    ;

    fn priority(&self) -> (r: i32)
        ensures
            r == self.spec_priority(),
            r <= MAX_PRIORITY,
    ;

    /// The frequency the service should run at, in hertz.
    fn frequency(&self) -> (r: u32)
        ensures
            r == self.spec_frequency(),
            r >= 1,
    ;

    /// The service period: one second split by the frequency, in
    /// nanoseconds.
    fn period(&self) -> (r: u64)
        ensures
            r == spec_period_ns(self.spec_frequency()),
    {
        let frequency = self.frequency();
        1_000_000_000u64 / (frequency as u64)
    }

    /// Pin the calling thread to the core `first_core` chooses from the
    /// host's list. Whether the host accepts is its own affair; the call's
    /// outcome is reported, never hidden in a panic: NoCores when no core
    /// could be chosen, AffinityRejected when the chosen id does not fit
    /// the host's fixed-width affinity mask or the host refused the pin.
    fn set_cpu_affinity(&self) -> (r: Result<(), RealTimeError>)
        ensures
            r matches Err(e) ==> (e == RealTimeError::NoCores || e
                == RealTimeError::AffinityRejected),
    {
        match first_core(available_core_ids()) {
            Err(e) => Err(e),
            Ok(core_id) => {
                if core_id >= CPU_SET_BITS {
                    Err(RealTimeError::AffinityRejected)
                } else if pin_current_thread(core_id) {
                    Ok(())
                } else {
                    Err(RealTimeError::AffinityRejected)
                }
            },
        }
    }

    /// Raise the calling thread to the FIFO scheduling class at this
    /// service's priority.
    fn set_policy(&self) -> (r: Result<(), RealTimeError>)
        ensures
            r is Err ==> r == Err::<(), RealTimeError>(RealTimeError::PolicyRejected),
    {
        match set_self_fifo_policy(self.priority()) {
            Ok(()) => Ok(()),
            Err(()) => Err(RealTimeError::PolicyRejected),
        }
    }

    /// The one-time setup: affinity first, scheduling class second.
    fn real_time_setup(&self) -> (r: Result<(), RealTimeError>) {
        match self.set_cpu_affinity() {
            Ok(()) => self.set_policy(),
            Err(e) => Err(e),
        }
    }
}

/// The two-value signal a worker's mailbox carries.
#[derive(Clone, Copy, Debug, PartialEq, Eq, Structural)]
pub enum SequencerCommand {
    /// Perform one unit of work.
    ProvideService,
    /// Leave the command loop and terminate.
    Exit,
}

/// A service's frequency does not evenly divide the sequencer's base
/// frequency: a configuration error, rejected before any scheduling, never
/// truncated or skipped at runtime. Carries the index of the first
/// offending service.
#[derive(Clone, Copy, Debug, PartialEq, Eq, Structural)]
pub enum ConfigError {
    IndivisibleFrequency(usize),
}

/// Whether `frequency` defines a rate group under `base`: it must be
/// nonzero and divide the base frequency evenly.
pub open spec fn divides_evenly(base: u32, frequency: u32) -> bool {
    1 <= frequency && base as int % frequency as int == 0
}

/// The rate-group periodic dispatcher. It owns all services for their whole
/// lifetime, ticks at its own base frequency, and fans out invocation
/// commands to the subset of services whose rate-group divisor matches each
/// tick.
pub struct Sequencer;

impl RealTime for Sequencer {
    open spec fn spec_name(&self) -> Seq<char> {
        "sequencer"@
    }

    open spec fn spec_priority(&self) -> i32 {
        MAX_PRIORITY
    }

    open spec fn spec_frequency(&self) -> u32 {
        100
    }

    fn name(&self) -> (r: &str) {
        "sequencer"
    }

    fn priority(&self) -> (r: i32)
        ensures
            r == self.spec_priority(),
    {
        MAX_PRIORITY
    }

    fn frequency(&self) -> (r: u32) {
        100
    }
}

impl Sequencer {
    /// A sequencer at the base frequency. The one-time thread setup is the
    /// embedding's to run, on the thread that will tick.
    pub fn new() -> (r: Sequencer)
        ensures
            r.spec_frequency() == 100,
            r.spec_priority() == MAX_PRIORITY,
    {
        Sequencer
    }

    /// The rate-group divisor of each service: base frequency over service
    /// frequency. A service whose frequency does not evenly divide the base
    /// is a configuration error, reported by the index of the first
    /// offender.
    pub fn rate_divisors(&self, service_frequencies: &Vec<u32>) -> (r: Result<
        Vec<u32>,
        ConfigError,
    >)
        ensures
            (r is Ok) <==> (forall|i: int|
                0 <= i < service_frequencies@.len() ==> #[trigger] divides_evenly(
                    self.spec_frequency(),
                    service_frequencies@[i],
                )),
            r matches Ok(divisors) ==> {
                &&& divisors@.len() == service_frequencies@.len()
                &&& forall|i: int|
                    0 <= i < divisors@.len() ==> #[trigger] divisors@[i] == self.spec_frequency()
                        / service_frequencies@[i]
                &&& forall|i: int| 0 <= i < divisors@.len() ==> #[trigger] divisors@[i] >= 1
            },
            r matches Err(ConfigError::IndivisibleFrequency(index)) ==> {
                &&& 0 <= index < service_frequencies@.len()
                &&& !divides_evenly(self.spec_frequency(), service_frequencies@[index as int])
                &&& forall|j: int|
                    0 <= j < index ==> #[trigger] divides_evenly(
                        self.spec_frequency(),
                        service_frequencies@[j],
                    )
            },
    {
        let base = self.frequency();
        let mut divisors: Vec<u32> = Vec::new();
        let mut i: usize = 0;
        while i < service_frequencies.len()
            invariant
                i <= service_frequencies@.len(),
                divisors@.len() == i,
                base == self.spec_frequency(),
                base >= 1,
                forall|j: int|
                    0 <= j < i ==> #[trigger] divides_evenly(base, service_frequencies@[j]),
                forall|j: int|
                    0 <= j < i ==> #[trigger] divisors@[j] == base / service_frequencies@[j],
                forall|j: int| 0 <= j < i ==> #[trigger] divisors@[j] >= 1,
            decreases service_frequencies@.len() - i,
        {
            let service_frequency = service_frequencies[i];
            if service_frequency == 0 || base % service_frequency != 0 {
                proof {
                    assert(!divides_evenly(self.spec_frequency(), service_frequencies@[i as int]));
                }
                return Err(ConfigError::IndivisibleFrequency(i));
            }
            proof {
                if service_frequency > base {
                    lemma_small_mod(base as nat, service_frequency as nat);
                }
                lemma_div_non_zero(base as int, service_frequency as int);
            }
            divisors.push(base / service_frequency);
            i = i + 1;
        }
        Ok(divisors)
    }

    /// The dispatch rule: a service whose rate-group divisor is `divisor`
    /// is invoked exactly on the ticks the divisor divides — evenly spaced,
    /// `tick_count % divisor == 0` at every dispatch.
    pub fn should_dispatch(tick_count: u64, divisor: u32) -> (r: bool)
        requires
            divisor >= 1,
        ensures
            r == (tick_count as int % divisor as int == 0),
    {
        tick_count % (divisor as u64) == 0
    }

    /// The dispatch set of one tick: for each service, whether this tick
    /// sends it a ProvideService command.
    pub fn commands_for_tick(tick_count: u64, divisors: &Vec<u32>) -> (r: Vec<bool>)
        requires
            forall|i: int| 0 <= i < divisors@.len() ==> #[trigger] divisors@[i] >= 1,
        ensures
            r@.len() == divisors@.len(),
            forall|i: int|
                0 <= i < r@.len() ==> #[trigger] r@[i] == (tick_count as int % divisors@[i] as int
                    == 0),
    {
        let mut commands: Vec<bool> = Vec::new();
        let mut i: usize = 0;
        while i < divisors.len()
            invariant
                i <= divisors@.len(),
                commands@.len() == i,
                forall|j: int| 0 <= j < divisors@.len() ==> #[trigger] divisors@[j] >= 1,
                forall|j: int|
                    0 <= j < i ==> #[trigger] commands@[j] == (tick_count as int % divisors@[j] as int
                        == 0),
            decreases divisors@.len() - i,
        {
            commands.push(Sequencer::should_dispatch(tick_count, divisors[i]));
            i = i + 1;
        }
        commands
    }

    /// The drift-corrected sleep before tick `tick_count + 1`: sleep toward
    /// that tick's nominal start on the shared clock, `period * (tick_count
    /// + 1)`, rather than a flat period, so per-iteration overhead is
    /// absorbed instead of accumulating. A loop that has already passed the
    /// nominal start sleeps zero.
    pub fn corrected_sleep_ns(period_ns: u64, tick_count: u64, elapsed_ns: u64) -> (r: u64)
        requires
            tick_count < u64::MAX,
            period_ns as int * (tick_count as int + 1) <= u64::MAX,
        ensures
            r == spec_corrected_sleep(period_ns as int, tick_count as int, elapsed_ns as int),
    {
        let target: u64 = period_ns * (tick_count + 1);
        if elapsed_ns <= target {
            target - elapsed_ns
        } else {
            0
        }
    }
}

/// The drift-corrected sleep, over the mathematical integers: the distance
/// from the elapsed time to the next tick's nominal start, or zero once the
/// loop is past it.
pub open spec fn spec_corrected_sleep(period_ns: int, tick_count: int, elapsed_ns: int) -> int {
    if elapsed_ns <= period_ns * (tick_count + 1) {
        period_ns * (tick_count + 1) - elapsed_ns
    } else {
        0
    }
}

/// The number of dispatch ticks in the window `[start, start + len)` of a
/// service whose rate-group divisor is `divisor`: the ticks the divisor
/// divides, exactly those on which `should_dispatch` answers true.
pub open spec fn spec_dispatch_count(start: int, len: int, divisor: int) -> int
    recommends
        1 <= divisor,
        0 <= len,
    decreases len,
{
    if len <= 0 {
        0
    } else {
        (if start % divisor == 0 {
            1int
        } else {
            0int
        }) + spec_dispatch_count(start + 1, len - 1, divisor)
    }
}

proof fn lemma_dispatch_count_split(start: int, len1: int, len2: int, divisor: int)
    requires
        1 <= divisor,
        0 <= len1,
        0 <= len2,
    ensures
        spec_dispatch_count(start, len1 + len2, divisor) == spec_dispatch_count(
            start,
            len1,
            divisor,
        ) + spec_dispatch_count(start + len1, len2, divisor),
    decreases len1,
{
    if len1 > 0 {
        lemma_dispatch_count_split(start + 1, len1 - 1, len2, divisor);
    }
}

proof fn lemma_dispatch_count_gap(start: int, len: int, divisor: int)
    requires
        1 <= divisor,
        0 <= len,
        start % divisor > 0,
        start % divisor + len <= divisor,
    ensures
        spec_dispatch_count(start, len, divisor) == 0,
    decreases len,
{
    if len > 0 {
        if start % divisor + 1 < divisor {
            lemma_fundamental_div_mod(start, divisor);
            lemma_mul_is_commutative(divisor, start / divisor);
            assert(start + 1 == (start / divisor) * divisor + (start % divisor + 1));
            lemma_fundamental_div_mod_converse(
                start + 1,
                divisor,
                start / divisor,
                start % divisor + 1,
            );
            lemma_dispatch_count_gap(start + 1, len - 1, divisor);
        } else {
            assert(len == 1);
            assert(spec_dispatch_count(start + 1, 0, divisor) == 0);
        }
    }
}

proof fn lemma_dispatch_count_multiples(start: int, blocks: int, divisor: int)
    requires
        1 <= divisor,
        0 <= blocks,
        start % divisor == 0,
    ensures
        spec_dispatch_count(start, blocks * divisor, divisor) == blocks,
    decreases blocks,
{
    if blocks == 0 {
        assert(blocks * divisor == 0);
    } else {
        assert(blocks * divisor == (blocks - 1) * divisor + divisor) by {
            lemma_mul_is_distributive_sub(divisor, blocks, 1);
        };
        lemma_mul_nonnegative(blocks - 1, divisor);
        lemma_dispatch_count_split(start + 1, divisor - 1, (blocks - 1) * divisor, divisor);
        if divisor > 1 {
            lemma_fundamental_div_mod(start, divisor);
            lemma_mul_is_commutative(divisor, start / divisor);
            assert(start + 1 == (start / divisor) * divisor + 1);
            lemma_fundamental_div_mod_converse(start + 1, divisor, start / divisor, 1);
            lemma_dispatch_count_gap(start + 1, divisor - 1, divisor);
        }
        lemma_mod_add_multiples_vanish(start, divisor);
        lemma_dispatch_count_multiples(start + divisor, blocks - 1, divisor);
    }
}

/// A service at frequency `freq` under base frequency `base`, with `base`
/// divisible by `freq`, receives exactly `freq` invocations in each window
/// of `base` ticks that starts on a whole base-second — one invocation
/// every `base / freq` ticks, evenly spaced by the dispatch rule.
pub proof fn lemma_dispatches_per_base_second(base: int, freq: int, second: int)
    requires
        1 <= freq,
        1 <= base,
        base % freq == 0,
        0 <= second,
    ensures
        base / freq >= 1,
        spec_dispatch_count(second * base, base, base / freq) == freq,
{
    let divisor = base / freq;
    if base < freq {
        lemma_small_mod(base as nat, freq as nat);
    }
    assert(base >= freq);
    lemma_div_non_zero(base, freq);
    lemma_fundamental_div_mod(base, freq);
    assert(base == freq * divisor);
    lemma_mul_is_associative(second, freq, divisor);
    lemma_mod_multiples_basic(second * freq, divisor);
    assert((second * base) % divisor == 0);
    lemma_dispatch_count_multiples(second * base, freq, divisor);
}

/// Elapsed time on the schedule's clock at the start of tick `k`, in a
/// model where tick `k - 1` spends `overheads[k - 1]` dispatching and the
/// drift-corrected sleep then runs exactly as long as asked.
pub open spec fn spec_tick_start(overheads: Seq<int>, period: int, k: int) -> int
    recommends
        0 <= k <= overheads.len(),
    decreases k,
{
    if k <= 0 {
        0
    } else {
        let busy = spec_tick_start(overheads, period, k - 1) + overheads[k - 1];
        busy + spec_corrected_sleep(period, k - 1, busy)
    }
}

/// The drift-corrected sleep never starts a tick before its nominal start
/// `period * k`, whatever the dispatch overheads were.
pub proof fn lemma_ticks_never_early(overheads: Seq<int>, period: int, n: int)
    requires
        0 <= period,
        0 <= n <= overheads.len(),
    ensures
        spec_tick_start(overheads, period, n) >= period * n,
{
    if n == 0 {
        lemma_mul_by_zero_is_zero(period);
    }
}

/// Over any run in which each tick's dispatch overhead stays within one
/// period, the drift-corrected sleep absorbs the overhead completely:
/// every tick starts exactly at its nominal time, so the observed average
/// tick period equals the nominal period and the cumulative drift stays at
/// one tick's error instead of accumulating per iteration.
pub proof fn lemma_drift_absorbed(overheads: Seq<int>, period: int, n: int)
    requires
        0 <= period,
        0 <= n <= overheads.len(),
        forall|k: int| 0 <= k < n ==> 0 <= #[trigger] overheads[k] <= period,
    ensures
        spec_tick_start(overheads, period, n) == period * n,
    decreases n,
{
    if n > 0 {
        lemma_drift_absorbed(overheads, period, n - 1);
        assert(period * (n - 1) + period == period * n) by {
            lemma_mul_is_distributive_add(period, n - 1, 1);
        };
        let busy = spec_tick_start(overheads, period, n - 1) + overheads[n - 1];
        assert(busy <= period * n);
        assert(spec_tick_start(overheads, period, n) == busy + spec_corrected_sleep(
            period,
            n - 1,
            busy,
        ));
    } else {
        lemma_mul_by_zero_is_zero(period);
    }
}

} // verus!
