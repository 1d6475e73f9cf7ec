use motor_monitor::buffer::RollingBuffer;
use motor_monitor::sample::{Channel, MotorData};

const CHANNELS: [Channel; 5] = [
    Channel::Power,
    Channel::Torque,
    Channel::Speed,
    Channel::Heat,
    Channel::Cycles,
];

fn sample(ts: i64, power: i64) -> MotorData {
    MotorData {
        timestamp: ts,
        current_power: power,
        current_torque: 10100,
        current_speed: 1_500_000,
        current_heat: 20_000,
        current_cycles: 10100,
    }
}

#[test]
fn every_channel_grows_once_per_append() {
    let mut b = RollingBuffer::new();
    for c in CHANNELS {
        assert_eq!(b.channel_len(c), 0);
    }
    for n in 1..=3i64 {
        b.append(&sample(n, 1000 * n));
        for c in CHANNELS {
            assert_eq!(b.channel_len(c), n as usize);
        }
    }
}

#[test]
fn snapshot_returns_entries_in_insertion_order() {
    let mut b = RollingBuffer::new();
    b.append(&sample(10, 1000));
    b.append(&sample(11, 3000));
    b.append(&sample(12, 2000));
    let power = b.snapshot(Channel::Power);
    assert_eq!(power, vec![(10, 1000), (11, 3000), (12, 2000)]);
    let torque = b.snapshot(Channel::Torque);
    assert_eq!(torque, vec![(10, 10100), (11, 10100), (12, 10100)]);
    for w in power.windows(2) {
        assert!(w[0].0 <= w[1].0);
    }
}

#[test]
fn snapshot_is_a_copy() {
    let mut b = RollingBuffer::new();
    b.append(&sample(1, 500));
    let before = b.snapshot(Channel::Heat);
    b.append(&sample(2, 600));
    assert_eq!(before.len(), 1);
    assert_eq!(b.snapshot(Channel::Heat).len(), 2);
}
