use dali_tools::address_set::AddressSet;
use dali_tools::sequencer::{LightSequencePoint, Sequencer};

type Timestamp = i64; // ms
const NEAR_LIMIT: i64 = 200;

// The key that stands for a light value of `power` percent, no colour.
fn power_key(power: f32) -> u64 {
    (power * 1000.0).round() as u64
}

fn check_seq(seq: &Sequencer, expected: &[(Timestamp, f32, &[u8])]) {
    let pending = seq.pending();
    assert_eq!(
        pending.len(),
        expected.len(),
        "Pending list has wrong length"
    );
    for (p, e) in pending.iter().zip(expected) {
        assert_eq!(p.1.when, e.0);
        assert_eq!(p.1.value, power_key(e.1));
        assert_eq!(p.0.to_vec(), AddressSet::from_slice(e.2).to_vec());
    }
}

fn add_seq(seq: &mut Sequencer, addrs: &[u8], lights: &[(Timestamp, f32)]) {
    seq.add_sequence(
        AddressSet::from_slice(addrs),
        &lights
            .iter()
            .map(|l| LightSequencePoint { when: l.0, value: power_key(l.1) })
            .collect::<Vec<LightSequencePoint>>(),
        NEAR_LIMIT,
    );
}

#[test]
fn test_add_sequence() {
    let mut seq = Sequencer::new();
    add_seq(&mut seq, &[3, 6], &[(900, 12.4)]);
    check_seq(&seq, &[(900, 12.4, &[3, 6])]);

    add_seq(&mut seq, &[3, 5], &[(300, 45.0)]);
    check_seq(&seq, &[(300, 45.0, &[3, 5]), (900, 12.4, &[6])]);

    add_seq(&mut seq, &[3, 6], &[(600, 45.0)]);
    check_seq(&seq, &[(300, 45.0, &[3, 5]), (600, 45.0, &[3, 6])]);

    add_seq(
        &mut seq,
        &[2, 3],
        &[(310, 49.0), (320, 45.0), (590, 89.0), (595, 45.0)],
    );
    check_seq(
        &seq,
        &[
            (300, 45.0, &[2, 3, 5]),
            (310, 49.0, &[2, 3]),
            (590, 89.0, &[2, 3]),
            (600, 45.0, &[2, 3, 6]),
        ],
    );
    add_seq(&mut seq, &[3, 7], &[(590, 92.0)]);
    check_seq(
        &seq,
        &[
            (300, 45.0, &[2, 3, 5]),
            (310, 49.0, &[2, 3]),
            (590, 89.0, &[2]),
            (590, 92.0, &[3, 7]),
            (600, 45.0, &[2, 6]),
        ],
    );
}

#[test]
fn empty_sequence_changes_nothing() {
    let mut seq = Sequencer::new();
    add_seq(&mut seq, &[1], &[(100, 10.0)]);
    add_seq(&mut seq, &[1, 2], &[]);
    check_seq(&seq, &[(100, 10.0, &[1])]);
}

#[test]
fn sequence_stays_in_time_order() {
    let mut seq = Sequencer::new();
    add_seq(&mut seq, &[1], &[(100, 10.0), (1000, 20.0), (2000, 30.0)]);
    add_seq(&mut seq, &[2], &[(50, 5.0), (1500, 25.0), (3000, 40.0)]);
    let whens: Vec<i64> = seq.pending().iter().map(|p| p.1.when).collect();
    assert_eq!(whens, vec![50, 100, 1000, 1500, 2000, 3000]);
    // A sequence from 1000 on takes address 1 out of the later points
    add_seq(&mut seq, &[1], &[(1000, 25.0)]);
    check_seq(
        &seq,
        &[(50, 5.0, &[2]), (100, 10.0, &[1]), (1000, 25.0, &[1]), (1500, 25.0, &[2]), (3000, 40.0, &[2])],
    );
}

#[test]
fn every_point_is_covered_and_others_withdrawn() {
    let mut seq = Sequencer::new();
    add_seq(&mut seq, &[1, 2], &[(100, 10.0), (500, 20.0), (900, 30.0)]);
    add_seq(&mut seq, &[4], &[(600, 20.0), (1200, 50.0)]);
    add_seq(&mut seq, &[1, 5], &[(450, 20.0), (1000, 35.0)]);
    let lights = [(450i64, power_key(20.0)), (1000i64, power_key(35.0))];
    let addrs = AddressSet::from_slice(&[1, 5]);
    for (when, value) in lights {
        // Some pending point of the same value, nearer than the limit,
        // holds both addresses.
        assert!(seq.pending().iter().any(|p| {
            p.1.value == value
                && (p.1.when - when).abs() < NEAR_LIMIT
                && addrs.to_vec().iter().all(|a| p.0.to_vec().contains(a))
        }));
    }
    // From the start on, a point either holds none of the addresses or
    // stands for one of the new points.
    for p in seq.pending().iter().filter(|p| p.1.when >= 450) {
        let holds_none = addrs.to_vec().iter().all(|a| !p.0.to_vec().contains(a));
        let stands_for = lights
            .iter()
            .any(|(w, v)| p.1.value == *v && (p.1.when - w).abs() < NEAR_LIMIT);
        assert!(holds_none || stands_for);
    }
    check_seq(
        &seq,
        &[
            (100, 10.0, &[1, 2]),
            (500, 20.0, &[1, 2, 4, 5]),
            (900, 30.0, &[2]),
            (1000, 35.0, &[1, 5]),
            (1200, 50.0, &[4]),
        ],
    );
}
