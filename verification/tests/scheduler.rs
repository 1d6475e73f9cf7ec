use motor_monitor::sample::{Channel, MotorData};
use motor_monitor::scheduler::{RawReading, Scheduler, TransportError};
use motor_monitor::specs::MotorSpecs;

const CHANNELS: [Channel; 5] = [
    Channel::Power,
    Channel::Torque,
    Channel::Speed,
    Channel::Heat,
    Channel::Cycles,
];

fn example_specs() -> MotorSpecs {
    // 2.4 kW, 10.1 N*m, 1450.0 rpm, 25.9 N*m, 4800.0 rpm, in thousandths.
    MotorSpecs::new(2400, 10100, 1_450_000, 25_900, 4_800_000)
}

#[test]
fn three_ticks_end_to_end() {
    let mut sched = Scheduler::new(example_specs(), 10100, 1000);
    let mut store: Vec<MotorData> = Vec::new();
    for now in 0..3i64 {
        let reading = Ok(RawReading { voltage: 100, current: 10, heat: 20, speed: 1500 });
        let sample = sched.on_tick(reading, now).unwrap();
        store.push(sample);
    }
    assert_eq!(store.len(), 3);
    for row in &store {
        // 100 V * 10 A = 1.0 kW.
        assert_eq!(row.current_power, 1000);
    }
    let power = sched.snapshot(Channel::Power);
    assert_eq!(power, vec![(0, 1000), (1, 1000), (2, 1000)]);
    for c in CHANNELS {
        assert_eq!(sched.channel_len(c), 3);
    }
}

#[test]
fn failed_read_fails_the_cycle_and_changes_nothing() {
    let mut sched = Scheduler::new(example_specs(), 10100, 1000);
    let ok = Ok(RawReading { voltage: 100, current: 10, heat: 20, speed: 1500 });
    sched.on_tick(ok, 0).unwrap();
    let r = sched.on_tick(Err(TransportError::Timeout), 1);
    assert_eq!(r, Err(TransportError::Timeout));
    let r = sched.on_tick(Err(TransportError::MalformedResponse), 1);
    assert_eq!(r, Err(TransportError::MalformedResponse));
    for c in CHANNELS {
        assert_eq!(sched.channel_len(c), 1);
    }
    // The next cycle proceeds untroubled.
    sched.on_tick(ok, 2).unwrap();
    assert_eq!(sched.snapshot(Channel::Power), vec![(0, 1000), (2, 1000)]);
}

#[test]
fn process_tick_stamps_with_the_wall_clock() {
    let mut sched = Scheduler::new(example_specs(), 10100, 1000);
    let reading = Ok(RawReading { voltage: 100, current: 10, heat: 20, speed: 1500 });
    let sample = sched.process_tick(reading).unwrap();
    assert_eq!(sample.current_power, 1000);
    assert_eq!(sched.channel_len(Channel::Power), 1);
    assert_eq!(sched.snapshot(Channel::Power), vec![(sample.timestamp, 1000)]);
    let failed = sched.process_tick(Err(TransportError::Io));
    assert_eq!(failed, Err(TransportError::Io));
    assert_eq!(sched.channel_len(Channel::Power), 1);
}

#[test]
fn sample_values_survive_to_every_channel() {
    let mut sched = Scheduler::new(example_specs(), 10100, 1000);
    let reading = Ok(RawReading { voltage: 230, current: 16, heat: 45, speed: 2900 });
    let s = sched.on_tick(reading, 9).unwrap();
    assert_eq!(sched.snapshot(Channel::Power), vec![(9, 3680)]);
    assert_eq!(sched.snapshot(Channel::Torque), vec![(9, 10100)]);
    assert_eq!(sched.snapshot(Channel::Speed), vec![(9, 2_900_000)]);
    assert_eq!(sched.snapshot(Channel::Heat), vec![(9, 45_000)]);
    assert_eq!(sched.snapshot(Channel::Cycles), vec![(9, 10100)]);
    assert_eq!(s.timestamp, 9);
}
