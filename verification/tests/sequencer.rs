use servo_core::sequencer::{ConfigError, Sequencer, Waypoint};

fn servo_sweep() -> Vec<Waypoint> {
    vec![
        Waypoint { position_degrees: 0, hold_ms: 1000 },
        Waypoint { position_degrees: 90, hold_ms: 1000 },
        Waypoint { position_degrees: 180, hold_ms: 1000 },
    ]
}

#[test]
fn empty_sequence_is_rejected() {
    let r = Sequencer::new(vec![], 1024, 26);
    assert!(matches!(r, Err(ConfigError::EmptySequence)));
}

#[test]
fn zero_resolution_is_rejected() {
    let r = Sequencer::new(servo_sweep(), 0, 26);
    assert!(matches!(r, Err(ConfigError::ZeroResolution)));
}

#[test]
fn starts_at_first_waypoint() {
    let s = Sequencer::new(servo_sweep(), 1024, 26).unwrap();
    assert_eq!(s.index, 0);
}

#[test]
fn cycles_back_after_one_full_pass() {
    let mut s = Sequencer::new(servo_sweep(), 1024, 26).unwrap();
    let first = s.step();
    s.step();
    s.step();
    // After as many transitions as there are waypoints, the sequencer is
    // back at index 0 and commands the same duty as the first step.
    assert_eq!(s.index, 0);
    let again = s.step();
    assert_eq!(again, first);
}

#[test]
fn writes_are_ordered_one_per_hold() {
    #[derive(PartialEq, Debug)]
    enum Event {
        Write(u32),
        Hold(u64),
    }
    let mut s = Sequencer::new(servo_sweep(), 1024, 26).unwrap();
    let mut log: Vec<Event> = Vec::new();
    let mut k: usize = 0;
    while k < 3 {
        let t = s.step();
        // The control loop writes the duty first, then lets the hold
        // elapse; only then does the next transition's write occur.
        log.push(Event::Write(t.duty));
        log.push(Event::Hold(t.hold_ms));
        k += 1;
    }
    assert_eq!(
        log,
        vec![
            Event::Write(26),
            Event::Hold(1000),
            Event::Write(538),
            Event::Hold(1000),
            Event::Write(1023),
            Event::Hold(1000),
        ]
    );
}

#[test]
fn end_to_end_sweep_scenario() {
    // Sequence [(0°, 1 s), (90°, 1 s), (180°, 1 s)] at resolution 1024 and
    // offset 26: the observed duty stream is exactly 26, 538, 1050 clamped
    // to 1023, each held one second, then repeating.
    let mut s = Sequencer::new(servo_sweep(), 1024, 26).unwrap();
    let mut duties: Vec<u32> = Vec::new();
    let mut k: usize = 0;
    while k < 6 {
        let t = s.step();
        duties.push(t.duty);
        assert_eq!(t.hold_ms, 1000);
        k += 1;
    }
    assert_eq!(duties, vec![26, 538, 1023, 26, 538, 1023]);
}

#[test]
fn single_waypoint_sequence_holds_still() {
    let mut s = Sequencer::new(vec![Waypoint { position_degrees: 45, hold_ms: 250 }], 1024, 26)
        .unwrap();
    let a = s.step();
    let b = s.step();
    assert_eq!(s.index, 0);
    assert_eq!(a, b);
    assert_eq!(a.duty, 45 * 1024 / 180 + 26);
}
