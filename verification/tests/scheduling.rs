use frame_pipeline::imaging::{Camera, FrameDiffer};
use frame_pipeline::real_time::{
    first_core, ConfigError, RealTime, RealTimeError, Sequencer, SequencerCommand, MAX_PRIORITY,
};

#[test]
fn service_metadata() {
    let sequencer = Sequencer::new();
    assert_eq!(sequencer.name(), "sequencer");
    assert_eq!(sequencer.priority(), MAX_PRIORITY);
    assert_eq!(sequencer.frequency(), 100);
    assert_eq!(sequencer.period(), 10_000_000);

    let camera = Camera::new();
    assert_eq!(camera.name(), "Camera");
    assert_eq!(camera.priority(), MAX_PRIORITY - 2);
    assert_eq!(camera.frequency(), 10);
    assert_eq!(camera.period(), 100_000_000);

    let differ = FrameDiffer::new(0, 0);
    assert_eq!(differ.name(), "Frame Differ");
    assert_eq!(differ.priority(), MAX_PRIORITY - 1);
    assert_eq!(differ.frequency(), 20);
    assert_eq!(differ.period(), 50_000_000);
}

#[test]
fn sequencer_commands_are_two_distinct_signals() {
    assert_eq!(SequencerCommand::ProvideService, SequencerCommand::ProvideService);
    assert_ne!(SequencerCommand::ProvideService, SequencerCommand::Exit);
}

#[test]
fn rate_divisors_for_the_service_set() {
    let sequencer = Sequencer::new();
    let divisors = sequencer
        .rate_divisors(&vec![20, 10, 100])
        .expect("frequencies divide the base");
    assert_eq!(divisors, vec![5, 10, 1]);
}

#[test]
fn indivisible_frequency_is_rejected() {
    let sequencer = Sequencer::new();
    assert_eq!(
        sequencer.rate_divisors(&vec![10, 3]),
        Err(ConfigError::IndivisibleFrequency(1))
    );
    assert_eq!(
        sequencer.rate_divisors(&vec![0]),
        Err(ConfigError::IndivisibleFrequency(0))
    );
    assert_eq!(
        sequencer.rate_divisors(&vec![200]),
        Err(ConfigError::IndivisibleFrequency(0))
    );
}

#[test]
fn dispatches_per_base_second_match_frequencies() {
    // Base 100 Hz; services at 10 Hz and 20 Hz. Over each window of 100
    // ticks every service is invoked exactly its frequency's worth of
    // times, always on ticks its divisor divides.
    let sequencer = Sequencer::new();
    let divisors = sequencer.rate_divisors(&vec![10, 20]).unwrap();
    assert_eq!(divisors, vec![10, 5]);

    for second in 0..3u64 {
        let mut counts = [0u32; 2];
        for tick in (second * 100)..(second * 100 + 100) {
            let commands = Sequencer::commands_for_tick(tick, &divisors);
            for (service, provide) in commands.iter().enumerate() {
                if *provide {
                    assert_eq!(tick % (divisors[service] as u64), 0);
                    counts[service] += 1;
                }
            }
        }
        assert_eq!(counts, [10, 20]);
    }
}

#[test]
fn corrected_sleep_exact_values() {
    let period = 10_000_000u64;
    // Ahead of the next nominal start: sleep the remaining distance.
    assert_eq!(Sequencer::corrected_sleep_ns(period, 0, 4_000_000), 6_000_000);
    // Exactly on time.
    assert_eq!(Sequencer::corrected_sleep_ns(period, 0, 10_000_000), 0);
    // Overrun past the nominal start: no sleep, never an underflow.
    assert_eq!(Sequencer::corrected_sleep_ns(period, 0, 25_000_000), 0);
    // Later tick: the target is period * (tick_count + 1).
    assert_eq!(Sequencer::corrected_sleep_ns(period, 3, 38_000_000), 2_000_000);
}

#[test]
fn drift_stays_bounded_over_long_run() {
    // Model a 10,000-tick run where every tick spends some overhead before
    // its drift-corrected sleep and each sleep lasts exactly as asked: each
    // tick starts exactly at its nominal time, so the average tick period
    // equals the nominal period.
    let period = 10_000_000u64;
    let ticks = 10_000u64;
    let mut elapsed = 0u64;
    for tick in 0..ticks {
        let overhead = (tick * 37) % period; // arbitrary overhead below one period
        let busy = elapsed + overhead;
        elapsed = busy + Sequencer::corrected_sleep_ns(period, tick, busy);
    }
    assert_eq!(elapsed, period * ticks);
    assert_eq!(elapsed / ticks, period);
}

#[test]
fn real_time_setup_reports_outcome() {
    // The one-time setup talks to the host scheduler; whether the host
    // grants affinity and the FIFO class depends on the machine, but the
    // outcome is always a plain report, never a crash.
    let sequencer = Sequencer::new();
    let affinity = sequencer.set_cpu_affinity();
    let policy = sequencer.real_time_setup();
    println!("affinity: {:?}, policy: {:?}", affinity, policy);
}

#[test]
fn first_core_picks_the_first_available() {
    assert_eq!(first_core(Some(vec![3, 5, 7])), Ok(3));
    assert_eq!(first_core(Some(vec![0])), Ok(0));
    assert_eq!(first_core(Some(vec![])), Err(RealTimeError::NoCores));
    assert_eq!(first_core(None), Err(RealTimeError::NoCores));
}
