use io_service::error::OtaErr;
use io_service::gpio::resolve_selection;
use io_service::gpio::ButtonDriver;
use io_service::gpio::GesturePhase;
use io_service::gpio::GpioDriver;
use io_service::gpio::GpioEffect;
use io_service::gpio::GpioIn;
use io_service::gpio::GpioOut;
use io_service::gpio::LedState;

fn led_driver(n: u64) -> GpioDriver {
    let leds: Vec<u64> = (10..10 + n).collect();
    GpioDriver::new(leds, vec![], vec![], 300, 14)
}

#[test]
fn blink_duplicate_session_rejected() {
    let mut d = led_driver(2);
    assert_eq!(d.blink_parse(0, 1000), Ok(()));
    assert_eq!(d.blink_parse(0, 1000), Err(OtaErr::RepeatErr));
    assert_eq!(d.blink_parse(0, 1000), Err(OtaErr::RepeatErr));
    // a different period is a new session and admitted again
    assert_eq!(d.blink_parse(0, 500), Ok(()));
    assert_eq!(d.blink_parse(0, 1000), Ok(()));
    // the second LED has its own session token
    assert_eq!(d.blink_parse(1, 1000), Ok(()));
}

#[test]
fn blink_parse_out_of_range_rejected() {
    let mut d = led_driver(1);
    assert_eq!(d.blink_parse(5, 1000), Err(OtaErr::RepeatErr));
}

#[test]
fn blink_finite_session_exact_toggles() {
    let mut d = led_driver(1);
    // admit a session with period 500 ms (5 ticks) and a budget of 3 toggles
    assert_eq!(d.blink_parse(0, 500), Ok(()));
    let mut toggles = 0;
    let mut rescheduled = true;
    let mut tick: u64 = 5;
    let mut steps = 0;
    while rescheduled {
        let effs = d
            .send(GpioIn::LedBlink { pin: 0, blink: false, time: 3, fre: 500, get_tick: tick })
            .unwrap();
        rescheduled = false;
        for e in &effs {
            match e {
                GpioEffect::TogglePin { pin } => {
                    assert_eq!(*pin, 10);
                    toggles += 1;
                }
                GpioEffect::ScheduleContinue { led_pin, blink, time, fre, delay_ms } => {
                    assert_eq!((*led_pin, *blink, *time, *fre, *delay_ms), (0, false, 3, 500, 500));
                    rescheduled = true;
                }
                _ => panic!("unexpected effect"),
            }
        }
        tick += 5;
        steps += 1;
        assert!(steps <= 10, "session did not terminate");
    }
    // exactly three toggles, then stopped with the count reset
    assert_eq!(toggles, 3);
    assert_eq!(d.leds[0].toggle_count, 0);
}

#[test]
fn blink_step_ignores_foreign_token() {
    let mut d = led_driver(1);
    assert_eq!(d.blink_parse(0, 500), Ok(()));
    // a continuation of a superseded session (other period) does nothing
    let effs = d
        .send(GpioIn::LedBlink { pin: 0, blink: false, time: 3, fre: 900, get_tick: 50 })
        .unwrap();
    assert!(effs.is_empty());
    assert_eq!(d.leds[0].toggle_count, 0);
}

#[test]
fn blink_stops_when_forced_out_of_blink() {
    let mut d = led_driver(1);
    assert_eq!(d.blink_parse(0, 500), Ok(()));
    // first step enters Blink and toggles
    let effs = d
        .send(GpioIn::LedBlink { pin: 0, blink: true, time: 0, fre: 500, get_tick: 5 })
        .unwrap();
    assert_eq!(effs.len(), 2);
    assert_eq!(d.leds[0].state, LedState::Blink);
    // an explicit off forces the entry out of Blink
    d.send(GpioIn::LedOff { pin: 0 }).unwrap();
    // the next continuation stops the session and resets the count
    let effs = d
        .send(GpioIn::LedBlink { pin: 0, blink: true, time: 0, fre: 500, get_tick: 10 })
        .unwrap();
    assert!(effs.is_empty());
    assert_eq!(d.leds[0].toggle_count, 0);
}

#[test]
fn fan_levels_rise_monotonically() {
    let mut d = led_driver(1);
    let readings = [45u32, 50, 55, 60, 65, 70];
    let mut last_level = 0;
    for t in readings {
        let level = match d.control_fan(t) {
            Some(GpioIn::FanModeLv1) => 1,
            Some(GpioIn::FanModeLv2) => 2,
            Some(GpioIn::FanModeLv3) => 3,
            other => panic!("unexpected fan action {:?}", other),
        };
        assert!(level >= last_level, "level dropped while warming");
        last_level = level;
    }
    assert_eq!(last_level, 3);
}

#[test]
fn fan_levels_fall_monotonically() {
    let mut d = led_driver(1);
    let _ = d.control_fan(70);
    let readings = [60u32, 55, 50, 45, 30];
    let mut last_level = 3;
    for t in readings {
        let level = match d.control_fan(t) {
            Some(GpioIn::FanModeLv1) => 1,
            Some(GpioIn::FanModeLv2) => 2,
            Some(GpioIn::FanModeLv3) => 3,
            other => panic!("unexpected fan action {:?}", other),
        };
        assert!(level <= last_level, "level rose while cooling");
        last_level = level;
    }
    assert_eq!(last_level, 1);
}

#[test]
fn fan_unchanged_reading_is_no_op() {
    let mut d = led_driver(1);
    assert_eq!(d.control_fan(50), Some(GpioIn::FanModeLv2));
    assert_eq!(d.control_fan(50), None);
    assert_eq!(d.control_fan(50), None);
}

#[test]
fn fan_hysteresis_at_ambiguous_bands() {
    let mut d = led_driver(1);
    // warming into the 48..=52 band picks the higher level
    let _ = d.control_fan(45);
    assert_eq!(d.control_fan(50), Some(GpioIn::FanModeLv2));
    // cooling into the same band picks the lower level
    let _ = d.control_fan(55);
    assert_eq!(d.control_fan(50), Some(GpioIn::FanModeLv1));
    // warming into the 59..=62 band picks the higher level
    assert_eq!(d.control_fan(60), Some(GpioIn::FanModeLv3));
    // cooling into it picks the lower one
    let _ = d.control_fan(65);
    assert_eq!(d.control_fan(60), Some(GpioIn::FanModeLv2));
}

#[test]
fn button_identical_polls_emit_nothing() {
    let mut b = ButtonDriver::new(14);
    for _ in 0..50 {
        assert_eq!(b.button_handle(1), None);
    }
    assert_eq!(b.last_value, 1);
}

#[test]
fn button_transitions_on_change_only() {
    let mut b = ButtonDriver::new(14);
    assert_eq!(b.button_handle(0), Some(GpioOut::ButtonPressed));
    assert_eq!(b.button_handle(0), None);
    assert_eq!(b.button_handle(1), Some(GpioOut::ButtonReleased));
    assert_eq!(b.button_handle(1), None);
    assert_eq!(b.button_handle(0), Some(GpioOut::ButtonPressed));
}

#[test]
fn gesture_full_cycle_emits_pressed() {
    let d = led_driver(3);
    let (writes, mut phase) = d.gesture_start();
    // every line is driven to the on level first
    assert_eq!(writes, vec![(10, 1), (11, 1), (12, 1)]);
    assert_eq!(phase, GesturePhase::Forward { next: 0 });
    // the button stays held (0) through the whole walk
    let mut observed: Vec<(u64, u8)> = Vec::new();
    for _ in 0..3 {
        let (w, p) = d.gesture_step(phase, 0);
        observed.push(w.unwrap());
        phase = p;
    }
    assert_eq!(observed, vec![(10, 0), (11, 0), (12, 0)]);
    assert_eq!(phase, GesturePhase::PostCheck);
    let (w, p) = d.gesture_step(phase, 0);
    assert_eq!(w, None);
    phase = p;
    assert_eq!(phase, GesturePhase::Replay { next: 0 });
    for expected in [(10u64, 1u8), (11, 1), (12, 1)] {
        let (w, p) = d.gesture_step(phase, 0);
        assert_eq!(w, Some(expected));
        phase = p;
    }
    assert_eq!(phase, GesturePhase::Done { emit_pressed: true });
}

#[test]
fn gesture_aborts_on_release() {
    let d = led_driver(3);
    let (_, phase) = d.gesture_start();
    // one step with the button held, then a release
    let (w, phase) = d.gesture_step(phase, 0);
    assert_eq!(w, Some((10, 0)));
    let (w, phase) = d.gesture_step(phase, 1);
    assert_eq!(w, None);
    assert_eq!(phase, GesturePhase::PostCheck);
    let (w, phase) = d.gesture_step(phase, 1);
    assert_eq!(w, None);
    assert_eq!(phase, GesturePhase::Done { emit_pressed: false });
}

#[test]
fn selection_maps_position_to_signal() {
    assert_eq!(resolve_selection(&vec![0, 1, 0, 0]), GpioOut::LedTwoReleased);
    assert_eq!(resolve_selection(&vec![0, 0, 1, 0]), GpioOut::LedThreeReleased);
    assert_eq!(resolve_selection(&vec![0, 0, 0, 1]), GpioOut::LedFourReleased);
    assert_eq!(resolve_selection(&vec![0, 0, 0, 0, 1]), GpioOut::LedFiveReleased);
    // the first LED is excluded from the selection
    assert_eq!(resolve_selection(&vec![1, 0, 0, 0]), GpioOut::Stop);
    // out of range and none found both map to Stop
    assert_eq!(resolve_selection(&vec![0, 0, 0, 0, 0, 1]), GpioOut::Stop);
    assert_eq!(resolve_selection(&vec![0, 0, 0]), GpioOut::Stop);
}

#[test]
fn led_and_relay_indexing_is_lenient() {
    let mut d = GpioDriver::new(vec![10], vec![20], vec![], 300, 14);
    // out-of-range indices are ignored without error
    d.send(GpioIn::LedOn { pin: 7 }).unwrap();
    d.send(GpioIn::RelayOn { pin: 7 }).unwrap();
    assert_eq!(d.leds[0].state, LedState::Off);
    assert!(!d.io[0].on);
    // in-range indices apply
    d.send(GpioIn::LedOn { pin: 0 }).unwrap();
    d.send(GpioIn::RelayOn { pin: 0 }).unwrap();
    assert_eq!(d.leds[0].state, LedState::On);
    assert!(d.io[0].on);
}

#[test]
fn relay_snapshot_follows_flags() {
    let mut d = GpioDriver::new(vec![], vec![20, 21, 22], vec![], 300, 14);
    d.send(GpioIn::RelayOn { pin: 0 }).unwrap();
    d.send(GpioIn::RelayOn { pin: 2 }).unwrap();
    assert_eq!(d.get_value_relay(), vec![true, false, true]);
    d.send(GpioIn::RelayOff { pin: 2 }).unwrap();
    assert_eq!(d.get_value_relay(), vec![true, false, false]);
}

#[test]
fn restore_writes_skip_blinking_entries() {
    let mut d = led_driver(3);
    d.send(GpioIn::LedOn { pin: 0 }).unwrap();
    assert_eq!(d.blink_parse(1, 500), Ok(()));
    let _ = d
        .send(GpioIn::LedBlink { pin: 1, blink: true, time: 0, fre: 500, get_tick: 5 })
        .unwrap();
    let effs = d.send(GpioIn::ReturnState).unwrap();
    assert_eq!(effs.len(), 1);
    match &effs[0] {
        GpioEffect::RestoreLeds { writes } => {
            // LED 0 is On (0), LED 1 blinks and is skipped, LED 2 is Off (1)
            assert_eq!(writes, &vec![(10, 0), (12, 1)]);
        }
        other => panic!("unexpected effect {:?}", other),
    }
}
