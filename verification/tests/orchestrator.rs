use io_service::gpio::GpioEffect;
use io_service::gpio::GpioOut;
use io_service::gpio::LedState;
use io_service::gpio::StatusGpio;
use io_service::json::OutMessage;
use io_service::logic::GpioLogicOut;
use io_service::system_intergration::SideEffect;
use io_service::system_intergration::SystemIntergration;
use io_service::system_intergration::Topic;
use io_service::transport::CommandEnvelope;

const MAC: &str = "Mi8ea43769e4d6Qb";

fn fresh_core() -> SystemIntergration {
    SystemIntergration::new(
        "Ai".to_string(),
        MAC.to_string(),
        vec![10, 11, 12],
        vec![20, 21, 22],
        vec![30],
        300,
        14,
    )
}

fn relay_envelope(on: bool) -> CommandEnvelope {
    CommandEnvelope {
        cmd: "set".to_string(),
        control_source: Some("ctl".to_string()),
        reqid: "req-7".to_string(),
        source: "app".to_string(),
        data_first: format!("io-{}-1", MAC),
        params_on: on,
        event_code: None,
    }
}

#[test]
fn relay_round_trip_status_envelopes() {
    let mut c = fresh_core();
    let on = c.process_action(GpioLogicOut::RelayOnEvent { relay: 1, json_init: relay_envelope(true) });
    let off =
        c.process_action(GpioLogicOut::RelayOffEvent { relay: 1, json_init: relay_envelope(false) });
    let expected_hash = format!("io-{}-1", MAC);
    for (effects, expected_on) in [(on, true), (off, false)] {
        assert_eq!(effects.len(), 1);
        match &effects[0] {
            SideEffect::Publish { topic, message } => {
                assert_eq!(*topic, Topic::IoStatus);
                match message {
                    OutMessage::Status { control_source, reqid, records } => {
                        assert_eq!(control_source.as_deref(), Some("ctl"));
                        assert_eq!(reqid, "req-7");
                        assert_eq!(records.len(), 1);
                        assert_eq!(records[0].hash, expected_hash);
                        assert_eq!(records[0].on, expected_on);
                    }
                    other => panic!("unexpected message {:?}", other),
                }
            }
            other => panic!("unexpected effect {:?}", other),
        }
    }
    // the logical relay flag followed the round trip back to off
    assert!(!c.gpio.io[1].on);
}

#[test]
fn gesture_lock_defers_led_actions_without_losing_them() {
    let mut c = fresh_core();
    // drain the primer action
    assert!(matches!(c.logic.pop_action(), Some(GpioLogicOut::NoneEvent)));
    // the gesture start takes the lock
    let effects = c.process_action(GpioLogicOut::ButtonBlinkEvent);
    assert_eq!(c.gpio.status, StatusGpio::ButtonPre);
    assert_eq!(effects.len(), 1);
    match &effects[0] {
        SideEffect::Gpio(GpioEffect::StartGesture { led_pins, button_pin, step_ms }) => {
            assert_eq!(led_pins, &vec![10, 11, 12]);
            assert_eq!(*button_pin, 14);
            assert_eq!(*step_ms, 300);
        }
        other => panic!("unexpected effect {:?}", other),
    }
    // while locked, an LED action defers: no hardware write reaches the bank
    let effects = c.process_action(GpioLogicOut::LedOnEvent { led_pin: 0 });
    assert!(matches!(effects[..], [SideEffect::DeferredRequeue]));
    assert_eq!(c.gpio.leds[0].state, LedState::Off);
    // a relay action is not LED hardware and still applies under the lock
    let _ = c.process_action(GpioLogicOut::RelayOnEvent { relay: 0, json_init: relay_envelope(true) });
    assert!(c.gpio.io[0].on);
    // the release clears the lock and restores the bank
    let effects = c.process_action(GpioLogicOut::ReturnState);
    assert_eq!(c.gpio.status, StatusGpio::LedCtrl);
    assert!(matches!(effects[..], [SideEffect::Gpio(GpioEffect::RestoreLeds { .. })]));
    // the deferred action is still queued and now applies
    let deferred = c.logic.pop_action().expect("deferred action was lost");
    assert!(matches!(deferred, GpioLogicOut::LedOnEvent { led_pin: 0 }));
    let effects = c.process_action(deferred);
    assert!(effects.is_empty());
    assert_eq!(c.gpio.leds[0].state, LedState::On);
}

#[test]
fn blink_command_admits_once_and_schedules() {
    let mut c = fresh_core();
    let cmd = GpioLogicOut::LedBlinkEvent { led_pin: 0, blink: false, time: 3, fre: 500 };
    let effects = c.process_action(cmd.clone());
    assert_eq!(c.gpio.status, StatusGpio::Blink);
    // at tick 0 the period has not elapsed yet: the session enters
    // Blink and schedules its first continuation without toggling
    assert!(matches!(
        effects[..],
        [SideEffect::Gpio(GpioEffect::ScheduleContinue { led_pin: 0, blink: false, time: 3, fre: 500, delay_ms: 500 })]
    ));
    assert_eq!(c.gpio.leds[0].state, LedState::Blink);
    // the identical command repeats: the duplicate session is rejected
    let effects = c.process_action(cmd);
    assert!(effects.is_empty());
}

#[test]
fn config_resync_publishes_sync_and_status() {
    let mut c = fresh_core();
    let _ = c.process_action(GpioLogicOut::RelayOnEvent { relay: 2, json_init: relay_envelope(true) });
    let effects = c.process_action(GpioLogicOut::ConfigRelayEvent);
    assert_eq!(effects.len(), 2);
    match &effects[0] {
        SideEffect::Publish { topic, message } => {
            assert_eq!(*topic, Topic::IoConfig);
            match message {
                OutMessage::Sync { reqid, records } => {
                    assert_eq!(reqid.len(), 12);
                    assert_eq!(records.len(), 3);
                    for (i, rec) in records.iter().enumerate() {
                        assert_eq!(rec.hash, format!("io-{}-{}", MAC, i));
                        assert_eq!(rec.mac, MAC);
                        assert_eq!(rec.is_main, i == 2);
                    }
                }
                other => panic!("unexpected message {:?}", other),
            }
        }
        other => panic!("unexpected effect {:?}", other),
    }
    match &effects[1] {
        SideEffect::Publish { topic, message } => {
            assert_eq!(*topic, Topic::IoStatus);
            match message {
                OutMessage::Status { control_source, reqid, records } => {
                    assert!(control_source.is_none());
                    assert_eq!(reqid.len(), 12);
                    assert_eq!(records.len(), 3);
                    for (i, rec) in records.iter().enumerate() {
                        assert_eq!(rec.hash, format!("io-{}-{}", MAC, i));
                        assert_eq!(rec.on, i == 2);
                    }
                }
                other => panic!("unexpected message {:?}", other),
            }
        }
        other => panic!("unexpected effect {:?}", other),
    }
}

#[test]
fn keepalive_carries_fresh_request_id() {
    let mut c = fresh_core();
    let effects = c.process_action(GpioLogicOut::KeepAliveEvent);
    assert_eq!(effects.len(), 1);
    match &effects[0] {
        SideEffect::Publish { topic, message } => {
            assert_eq!(*topic, Topic::KeepAliveIo);
            match message {
                OutMessage::KeepAlive { reqid } => assert_eq!(reqid.len(), 12),
                other => panic!("unexpected message {:?}", other),
            }
        }
        other => panic!("unexpected effect {:?}", other),
    }
}

#[test]
fn temperature_check_becomes_an_effect() {
    let mut c = fresh_core();
    let effects = c.process_action(GpioLogicOut::CheckTempCpuEvent);
    assert!(matches!(effects[..], [SideEffect::CheckTemp]));
    // stop and the empty action do nothing
    assert!(c.process_action(GpioLogicOut::StopEvent).is_empty());
    assert!(c.process_action(GpioLogicOut::NoneEvent).is_empty());
}

#[test]
fn tick_schedules_keepalive_every_400th() {
    let mut c = fresh_core();
    assert!(matches!(c.logic.pop_action(), Some(GpioLogicOut::NoneEvent)));
    for _ in 0..399 {
        assert!(c.on_tick(None).is_none());
        assert!(c.logic.pop_action().is_none());
    }
    assert!(c.on_tick(None).is_none());
    assert_eq!(c.logic.tick, 400);
    assert!(matches!(c.logic.pop_action(), Some(GpioLogicOut::KeepAliveEvent)));
    assert!(matches!(c.logic.pop_action(), Some(GpioLogicOut::CheckTempCpuEvent)));
    assert!(c.logic.pop_action().is_none());
}

#[test]
fn tick_feeds_button_polls_to_the_monitor() {
    let mut c = fresh_core();
    assert_eq!(c.on_tick(Some(1)), None);
    assert_eq!(c.on_tick(Some(0)), Some(GpioOut::ButtonPressed));
    assert_eq!(c.on_tick(Some(0)), None);
    assert_eq!(c.on_tick(Some(1)), Some(GpioOut::ButtonReleased));
}

#[test]
fn device_mode_comes_from_the_startup_text() {
    let ai = fresh_core();
    assert!(matches!(ai.logic.device, io_service::logic::DeviceOs::Ai));
    let hc = SystemIntergration::new(
        "Hc".to_string(),
        MAC.to_string(),
        vec![],
        vec![],
        vec![],
        0,
        0,
    );
    assert!(matches!(hc.logic.device, io_service::logic::DeviceOs::Hc));
}
