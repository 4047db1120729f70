use led_chase::channel::{ChannelController, Stage};
use led_chase::chase::{baseline_trace, chase_trace, Chase, ChaseEvent, Transition};
use led_chase::level::{active_low, state_of_level, Level};
use led_chase::sequencer::{restart_state, seed_state, Command, StepSequencer};
use led_chase::slot::SignalSlot;

fn tr(time_ms: u64, channel: usize, state: bool) -> Transition {
    let level = if state { Level::Low } else { Level::High };
    Transition { time_ms, channel, state, level }
}

#[test]
fn active_low_maps_true_to_low() {
    assert_eq!(active_low(true), Level::Low);
    assert_eq!(active_low(false), Level::High);
    assert!(state_of_level(active_low(true)));
    assert!(!state_of_level(active_low(false)));
}

#[test]
fn chained_channel_forwards_unchanged() {
    let c = ChannelController::chained(2, 200);
    for v in [true, false] {
        let s = c.handle(v);
        assert_eq!(
            s,
            Stage { level: active_low(v), channel: 2, state: v, delay_ms: 200, forward: Some(v) }
        );
    }
}

#[test]
fn direct_channel_does_not_forward() {
    let c = ChannelController::direct(3);
    let s = c.handle(true);
    assert_eq!(s.level, Level::Low);
    assert_eq!(s.forward, None);
    assert_eq!(s.delay_ms, 0);
}

#[test]
fn sequencer_inverts_once() {
    assert!(seed_state());
    assert!(!restart_state(true));
    assert!(restart_state(false));
}

#[test]
fn slot_overwrites_before_take() {
    let mut s = SignalSlot::new();
    assert_eq!(s.try_take(), None);
    s.signal(true);
    s.signal(false);
    assert_eq!(s.try_take(), Some(false));
    assert_eq!(s.try_take(), None);
}

#[test]
fn slot_delivers_each_value_once() {
    let mut s = SignalSlot::new();
    s.signal(true);
    assert_eq!(s.try_take(), Some(true));
    s.signal(false);
    assert_eq!(s.try_take(), Some(false));
    assert_eq!(s.try_take(), None);
}

#[test]
fn step_sequencer_cycles_six_steps() {
    let mut q = StepSequencer::new();
    let expected = [(1, true), (2, true), (3, true), (1, false), (2, false), (3, false)];
    for round in 0..2 {
        for (i, (channel, state)) in expected.iter().enumerate() {
            assert_eq!(q.current_step() as usize, i + 1, "round {}", round);
            assert_eq!(q.advance(), Command { channel: *channel, state: *state });
        }
    }
    assert_eq!(q.current_step(), 1);
}

#[test]
fn chase_three_channels_scenario() {
    let t = chase_trace([500, 200, 500], 7);
    let expected = vec![
        tr(0, 1, true),
        tr(500, 2, true),
        tr(700, 3, true),
        tr(1200, 1, false),
        tr(1700, 2, false),
        tr(1900, 3, false),
        tr(2400, 1, true),
    ];
    assert_eq!(t, expected);
}

#[test]
fn chase_without_last_delay_has_period_1400() {
    let t = chase_trace([500, 200, 0], 7);
    let times: Vec<u64> = t.iter().map(|x| x.time_ms).collect();
    assert_eq!(times, vec![0, 500, 700, 700, 1200, 1400, 1400]);
    assert_eq!(t[3], tr(700, 1, false));
}

#[test]
fn chase_delay_between_transitions() {
    let d = [500u16, 200, 500];
    let t = chase_trace(d, 12);
    for k in 0..11 {
        assert_eq!(t[k + 1].time_ms - t[k].time_ms, d[k % 3] as u64);
    }
    for k in 0..6 {
        assert_eq!(t[k + 6].time_ms, t[k].time_ms + 2400);
        assert_eq!(t[k + 3].state, !t[k].state);
        assert_eq!(t[k + 3].channel, t[k].channel);
    }
}

#[test]
fn chase_empty_trace() {
    assert!(chase_trace([500, 200, 500], 0).is_empty());
    assert!(baseline_trace(0).is_empty());
}

#[test]
fn chase_steps_in_order() {
    let mut c = Chase::start([500, 200, 500]);
    assert_eq!(c.step(), ChaseEvent::Drive(tr(0, 1, true)));
    assert_eq!(c.step(), ChaseEvent::Forward { from: 1, state: true, at_ms: 500 });
    assert_eq!(c.step(), ChaseEvent::Drive(tr(500, 2, true)));
    assert_eq!(c.step(), ChaseEvent::Forward { from: 2, state: true, at_ms: 700 });
    assert_eq!(c.step(), ChaseEvent::Drive(tr(700, 3, true)));
    assert_eq!(c.step(), ChaseEvent::Forward { from: 3, state: true, at_ms: 1200 });
    assert_eq!(c.step(), ChaseEvent::Restart { state: false });
    assert_eq!(c.step(), ChaseEvent::Drive(tr(1200, 1, false)));
    assert_eq!(c.clock_ms(), 1200);
}

#[test]
fn baseline_pattern_scenario() {
    let t = baseline_trace(7);
    let expected = vec![
        tr(0, 1, true),
        tr(500, 2, true),
        tr(1000, 3, true),
        tr(1500, 1, false),
        tr(2000, 2, false),
        tr(2500, 3, false),
        tr(3000, 1, true),
    ];
    assert_eq!(t, expected);
}

#[test]
fn baseline_pattern_period() {
    let t = baseline_trace(18);
    for k in 0..12 {
        assert_eq!(t[k + 6].time_ms, t[k].time_ms + 3000);
        assert_eq!(t[k + 6].channel, t[k].channel);
        assert_eq!(t[k + 6].state, t[k].state);
        assert_eq!(t[k + 1].time_ms - t[k].time_ms, 500);
    }
}
