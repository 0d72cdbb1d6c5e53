use breathing_led::envelope::Envelope;
use breathing_led::wave::Event;

fn state(envelope: &Envelope) -> (u64, bool, u64) {
    (envelope.duty(), envelope.rising(), envelope.cycle_count())
}

#[test]
fn envelope_starts_dark_and_rising() {
    let envelope = Envelope::new(100, 2).unwrap();
    assert_eq!(state(&envelope), (0, true, 0));
    assert_eq!(envelope.duty_steps(), 100);
    assert_eq!(envelope.cycles_per_step(), 2);
}

#[test]
fn envelope_needs_a_step_and_a_cycle() {
    assert!(Envelope::new(0, 2).is_none());
    assert!(Envelope::new(100, 0).is_none());
    assert!(Envelope::new(0, 0).is_none());
    assert!(Envelope::new(1, 1).is_some());
    assert!(Envelope::new(u64::MAX, u64::MAX).is_some());
}

#[test]
fn duty_moves_on_every_second_boundary() {
    let mut envelope = Envelope::new(100, 2).unwrap();
    assert_eq!(envelope.on_boundary(), Event::Held);
    assert_eq!(state(&envelope), (0, true, 1));
    assert_eq!(envelope.on_boundary(), Event::Stepped);
    assert_eq!(state(&envelope), (1, true, 0));
}

#[test]
fn duty_moves_down_on_every_second_boundary_when_falling() {
    let mut envelope = Envelope::new(100, 2).unwrap();
    for _ in 0..200 {
        envelope.on_boundary();
    }
    assert_eq!(state(&envelope), (100, false, 0));
    assert_eq!(envelope.on_boundary(), Event::Held);
    assert_eq!(state(&envelope), (100, false, 1));
    assert_eq!(envelope.on_boundary(), Event::Stepped);
    assert_eq!(state(&envelope), (99, false, 0));
}

#[test]
fn peak_after_half_a_breath_and_trough_after_a_whole_one() {
    let mut envelope = Envelope::new(100, 2).unwrap();
    for n in 1..=200u64 {
        let event = envelope.on_boundary();
        if n < 200 {
            assert_ne!(event, Event::Peak);
            assert!(envelope.rising());
            assert!(envelope.duty() < 100);
        } else {
            assert_eq!(event, Event::Peak);
        }
        assert_ne!(event, Event::Trough);
    }
    assert_eq!(state(&envelope), (100, false, 0));
    for n in 1..=200u64 {
        let event = envelope.on_boundary();
        if n < 200 {
            assert_ne!(event, Event::Trough);
            assert!(!envelope.rising());
            assert!(envelope.duty() > 0);
        } else {
            assert_eq!(event, Event::Trough);
        }
        assert_ne!(event, Event::Peak);
    }
    assert_eq!(state(&envelope), (0, true, 0));
}

#[test]
fn breath_repeats_from_any_state() {
    let mut envelope = Envelope::new(7, 3).unwrap();
    for _ in 0..11 {
        envelope.on_boundary();
    }
    let first = state(&envelope);
    assert_eq!(first, (3, true, 2));
    let mut seen = vec![first];
    for _ in 0..(2 * 7 * 3 - 1) {
        envelope.on_boundary();
        assert_ne!(state(&envelope), first);
        seen.push(state(&envelope));
    }
    envelope.on_boundary();
    assert_eq!(state(&envelope), first);
    for expected in seen.iter().skip(1) {
        envelope.on_boundary();
        assert_eq!(state(&envelope), *expected);
    }
}

#[test]
fn duty_follows_the_triangle() {
    let mut envelope = Envelope::new(4, 2).unwrap();
    let mut duties = Vec::new();
    for _ in 0..16 {
        envelope.on_boundary();
        duties.push(envelope.duty());
    }
    assert_eq!(duties, vec![0, 1, 1, 2, 2, 3, 3, 4, 4, 3, 3, 2, 2, 1, 1, 0]);
}

#[test]
fn extremes_dwell_as_long_as_any_other_duty() {
    let mut envelope = Envelope::new(3, 4).unwrap();
    let mut at_top = 0;
    let mut at_zero = 0;
    for _ in 0..(2 * 3 * 4) {
        envelope.on_boundary();
        if envelope.duty() == 3 {
            at_top += 1;
        }
        if envelope.duty() == 0 {
            at_zero += 1;
        }
    }
    assert_eq!(at_top, 4);
    assert_eq!(at_zero, 4);
}

#[test]
fn single_step_envelope_alternates() {
    let mut envelope = Envelope::new(1, 1).unwrap();
    assert_eq!(envelope.on_boundary(), Event::Peak);
    assert_eq!(state(&envelope), (1, false, 0));
    assert_eq!(envelope.on_boundary(), Event::Trough);
    assert_eq!(state(&envelope), (0, true, 0));
    assert_eq!(envelope.on_boundary(), Event::Peak);
}

#[test]
fn every_boundary_steps_when_a_step_lasts_one_cycle() {
    let mut envelope = Envelope::new(3, 1).unwrap();
    let events: Vec<Event> = (0..6).map(|_| envelope.on_boundary()).collect();
    assert_eq!(
        events,
        vec![
            Event::Stepped,
            Event::Stepped,
            Event::Peak,
            Event::Stepped,
            Event::Stepped,
            Event::Trough
        ]
    );
}
