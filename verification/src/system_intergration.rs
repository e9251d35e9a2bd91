use vstd::prelude::*;
use crate::error::OtaErr;
use crate::gpio::ButtonDriver;
use crate::gpio::GpioDriver;
use crate::gpio::GpioEffect;
use crate::gpio::GpioIn;
use crate::gpio::GpioOut;
use crate::gpio::LedEntry;
use crate::gpio::LedState;
use crate::gpio::StatusGpio;
use crate::gpio::spec_blink_admit;
use crate::gpio::spec_blink_applies;
use crate::gpio::spec_blink_effects;
use crate::gpio::spec_blink_step;
use crate::gpio::spec_led_set;
use crate::gpio::spec_relay_set;
use crate::gpio::spec_restore_writes;
use crate::gpio::spec_same_but_io;
use crate::gpio::spec_same_but_leds;
use crate::json::JsonDriver;
use crate::json::JsonIn;
use crate::json::OutMessage;
use crate::json::make_hash;
use crate::json::spec_hash;
use crate::logic::DeviceOs;
use crate::logic::GpioLogicIn;
use crate::logic::GpioLogicOut;
use crate::logic::OtaLogic;
use crate::logic::spec_on_event_emits;
use crate::transport::TransportOut;
use vstd::string::StringExecFns;

verus! {

/// Where an outbound message goes: the three fixed topics the service
/// ever publishes to.
#[derive(Debug, Clone, Copy, PartialEq, Eq, Structural)]
pub enum Topic {
    IoStatus,
    IoConfig,
    KeepAliveIo,
}

/// Work the reactor must carry out after one action was processed.
#[derive(Debug, Clone)]
pub enum SideEffect {
    /// Hardware work decided by the GPIO bank.
    Gpio(GpioEffect),
    /// A message to publish.
    Publish { topic: Topic, message: OutMessage },
    /// Read the CPU temperature and feed it to the fan controller.
    CheckTemp,
    /// The gesture lock deferred this action: wait briefly, then end
    /// the drain pass; the action is already back at the queue's tail.
    DeferredRequeue,
}

/// Whether an action mutates LED hardware and therefore defers while
/// the walking gesture holds the lock.
pub open spec fn spec_is_led_action(out: GpioLogicOut) -> bool {
    ||| out is LedOnEvent
    ||| out is LedOffEvent
    ||| out is LedBlinkEvent
    ||| out is LedBlinkContinueEvent
}

/// The single reactor's state: the logic engine, the GPIO bank, the
/// button monitor and the message builder, drained and arbitrated here.
#[derive(Debug)]
pub struct SystemIntergration {
    pub logic: OtaLogic,
    pub gpio: GpioDriver,
    pub button: ButtonDriver,
    pub json: JsonDriver,
    pub index: usize,
}

/// The mode, identity and tick of the logic engine are untouched.
pub open spec fn spec_same_logic_meta(a: SystemIntergration, b: SystemIntergration) -> bool {
    &&& a.logic.device == b.logic.device
    &&& a.logic.id_mac == b.logic.id_mac
    &&& a.logic.tick == b.logic.tick
}

/// Wraps the GPIO bank's hardware effects as reactor side effects.
fn wrap_gpio_effects(effs: Vec<GpioEffect>) -> (r: Vec<SideEffect>)
    ensures
        r@ == effs@.map_values(|g: GpioEffect| SideEffect::Gpio(g)),
{
    let ghost orig = effs@;
    let mut v = effs;
    let mut r: Vec<SideEffect> = Vec::new();
    while v.len() > 0
        invariant
            orig.len() == r@.len() + v@.len(),
            v@ =~= orig.subrange(r@.len() as int, orig.len() as int),
            r@ =~= orig.subrange(0, r@.len() as int).map_values(
                |g: GpioEffect| SideEffect::Gpio(g),
            ),
        decreases v@.len(),
    {
        let ghost k = r@.len() as int;
        let e = v.remove(0);
        proof {
            assert(e == orig[k]);
        }
        r.push(SideEffect::Gpio(e));
        proof {
            assert(v@ =~= orig.subrange(k + 1, orig.len() as int));
            assert(r@ =~= orig.subrange(0, k + 1).map_values(|g: GpioEffect| SideEffect::Gpio(g)));
        }
    }
    proof {
        assert(orig.subrange(0, orig.len() as int) =~= orig);
    }
    r
}

impl SystemIntergration {
    /// Builds the reactor's state from the startup configuration; the
    /// device mode is `Ai` exactly for the text "Ai", anything else is
    /// taken as `Hc`.
    pub fn new(
        device: String,
        id_mac: String,
        led_vec: Vec<u64>,
        io_vec: Vec<u64>,
        fan_vec: Vec<u64>,
        time_blink: u64,
        button_pin: u64,
    ) -> (r: SystemIntergration)
        ensures
            r.logic.device == (if device@ == "Ai"@ {
                DeviceOs::Ai
            } else {
                DeviceOs::Hc
            }),
            r.logic.id_mac == id_mac,
            r.logic.tick == 0,
            r.logic.outputs@ == seq![GpioLogicOut::NoneEvent],
            r.gpio.leds@.len() == led_vec@.len(),
            forall|i: int|
                0 <= i < led_vec@.len() ==> r.gpio.leds@[i] == (LedEntry {
                    pin: led_vec@[i],
                    state: LedState::Off,
                    last_toggle_tick: 0,
                    toggle_count: 0,
                    session_token: 0,
                }),
            r.gpio.io@.len() == io_vec@.len(),
            forall|i: int|
                0 <= i < io_vec@.len() ==> r.gpio.io@[i] == (crate::gpio::RelayEntry {
                    pin: io_vec@[i],
                    on: false,
                }),
            r.gpio.fan@ == fan_vec@,
            r.gpio.button_pin == button_pin,
            r.gpio.status == StatusGpio::LedCtrl,
            r.gpio.time_blink == time_blink,
            r.gpio.last_cpu_temperature == 0,
            r.button == (ButtonDriver { button_pin, last_value: 1 }),
            r.index == 0,
    {
        let ai_word = String::from_str("Ai");
        let device_os = if device == ai_word {
            DeviceOs::Ai
        } else {
            DeviceOs::Hc
        };
        let logic = OtaLogic::new(device_os, id_mac);
        SystemIntergration {
            logic,
            gpio: GpioDriver::new(led_vec, io_vec, fan_vec, time_blink, button_pin),
            button: ButtonDriver::new(button_pin),
            json: JsonDriver {  },
            index: 0,
        }
    }

    /// One reactor tick: feeds the button poll (when one was read) to
    /// the monitor and returns its transition event, advances the logic
    /// tick, and every 400th tick queues a keepalive and a temperature
    /// check.
    pub fn on_tick(&mut self, button_value: Option<u8>) -> (r: Option<GpioOut>)
        requires
            old(self).logic.tick < u64::MAX,
            old(self).index < usize::MAX,
        ensures
            final(self).logic.tick == old(self).logic.tick + 1,
            final(self).logic.device == old(self).logic.device,
            final(self).logic.id_mac == old(self).logic.id_mac,
            final(self).gpio == old(self).gpio,
            final(self).json == old(self).json,
            (button_value is None ==> final(self).button == old(self).button && r is None),
            (button_value matches Some(v) ==> {
                &&& (v == old(self).button.last_value ==> final(self).button == old(self).button
                    && r is None)
                &&& (v != old(self).button.last_value ==> final(self).button == (ButtonDriver {
                    last_value: v,
                    ..old(self).button
                }) && r == Some(
                    if v == 0 {
                        GpioOut::ButtonPressed
                    } else {
                        GpioOut::ButtonReleased
                    },
                ))
            }),
            (old(self).index + 1 >= 400 ==> final(self).index == 0 && final(self).logic.outputs@
                == old(self).logic.outputs@ + seq![
                GpioLogicOut::KeepAliveEvent,
                GpioLogicOut::CheckTempCpuEvent,
            ]),
            (old(self).index + 1 < 400 ==> final(self).index == old(self).index + 1 && final(self).logic.outputs@ == old(self).logic.outputs@),
    {
        let r = match button_value {
            Some(v) => self.button.button_handle(v),
            None => None,
        };
        self.logic.tick = self.logic.tick + 1;
        self.index = self.index + 1;
        if self.index >= 400 {
            self.index = 0;
            self.logic.outputs.push_back(GpioLogicOut::KeepAliveEvent);
            self.logic.outputs.push_back(GpioLogicOut::CheckTempCpuEvent);
            assert(self.logic.outputs@ =~= old(self).logic.outputs@ + seq![
                GpioLogicOut::KeepAliveEvent,
                GpioLogicOut::CheckTempCpuEvent,
            ]);
        }
        r
    }

    /// Feeds one transport event to the logic engine.
    pub fn on_transport(&mut self, etransport: Result<TransportOut, OtaErr>)
        ensures
            final(self).logic.outputs@ == old(self).logic.outputs@ + spec_on_event_emits(
                GpioLogicIn::Transport(etransport),
                old(self).logic.device,
                old(self).logic.id_mac@,
            ),
            spec_same_logic_meta(*final(self), *old(self)),
            final(self).gpio == old(self).gpio,
            final(self).button == old(self).button,
            final(self).json == old(self).json,
            final(self).index == old(self).index,
    {
        self.logic.on_event(GpioLogicIn::Transport(etransport));
    }

    /// Feeds one hardware feedback event to the logic engine.
    pub fn on_gpio(&mut self, egpio: Result<GpioOut, OtaErr>)
        ensures
            final(self).logic.outputs@ == old(self).logic.outputs@ + spec_on_event_emits(
                GpioLogicIn::Gpio(egpio),
                old(self).logic.device,
                old(self).logic.id_mac@,
            ),
            spec_same_logic_meta(*final(self), *old(self)),
            final(self).gpio == old(self).gpio,
            final(self).button == old(self).button,
            final(self).json == old(self).json,
            final(self).index == old(self).index,
    {
        self.logic.on_event(GpioLogicIn::Gpio(egpio));
    }

    /// Processes one drained action under the lock arbitration.
    ///
    /// While the gesture holds the lock (`ButtonPre`), every
    /// LED-mutating action is deferred, not dropped: the bank is left
    /// untouched, no hardware effect is returned, and the identical
    /// action goes back to the tail of the queue, to be applied once
    /// the lock clears.
    pub fn process_action(&mut self, out: GpioLogicOut) -> (r: Vec<SideEffect>)
        ensures
            spec_same_logic_meta(*final(self), *old(self)),
            final(self).button == old(self).button,
            final(self).json == old(self).json,
            final(self).index == old(self).index,
            (old(self).gpio.status is ButtonPre && spec_is_led_action(out) ==> {
                &&& final(self).gpio == old(self).gpio
                &&& final(self).logic.outputs@ == old(self).logic.outputs@.push(out)
                &&& r@ == seq![SideEffect::DeferredRequeue]
            }),
            (out matches GpioLogicOut::LedOnEvent { led_pin } ==> !(old(self).gpio.status is ButtonPre) ==> {
                &&& final(self).gpio.leds@ == spec_led_set(
                    old(self).gpio.leds@,
                    led_pin as int,
                    LedState::On,
                )
                &&& spec_same_but_leds(final(self).gpio, old(self).gpio)
                &&& final(self).logic.outputs@ == old(self).logic.outputs@
                &&& r@ == Seq::<SideEffect>::empty()
            }),
            (out matches GpioLogicOut::LedOffEvent { led_pin } ==> !(old(self).gpio.status is ButtonPre) ==> {
                &&& final(self).gpio.leds@ == spec_led_set(
                    old(self).gpio.leds@,
                    led_pin as int,
                    LedState::Off,
                )
                &&& spec_same_but_leds(final(self).gpio, old(self).gpio)
                &&& final(self).logic.outputs@ == old(self).logic.outputs@
                &&& r@ == Seq::<SideEffect>::empty()
            }),
            (out matches GpioLogicOut::LedBlinkContinueEvent { led_pin, blink, time, fre } ==> !(old(self).gpio.status is ButtonPre) ==> {
                &&& spec_same_but_leds(final(self).gpio, old(self).gpio)
                &&& final(self).logic.outputs@ == old(self).logic.outputs@
                &&& (!spec_blink_applies(old(self).gpio, led_pin, fre) ==> final(self).gpio == old(self).gpio && r@ == Seq::<SideEffect>::empty())
                &&& (spec_blink_applies(old(self).gpio, led_pin, fre) ==> {
                    let e = old(self).gpio.leds@[led_pin as int];
                    &&& final(self).gpio.leds@ == old(self).gpio.leds@.update(
                        led_pin as int,
                        spec_blink_step(e, blink, time, fre, old(self).logic.tick).0,
                    )
                    &&& r@ == spec_blink_effects(
                        e,
                        led_pin,
                        blink,
                        time,
                        fre,
                        old(self).logic.tick,
                    ).map_values(|g: GpioEffect| SideEffect::Gpio(g))
                })
            }),
            (out matches GpioLogicOut::LedBlinkEvent { led_pin, blink, time, fre } ==> !(old(self).gpio.status is ButtonPre) ==> {
                let (l1, admitted) = spec_blink_admit(old(self).gpio.leds@, led_pin as int, fre);
                &&& final(self).gpio.status is Blink
                &&& final(self).gpio.io == old(self).gpio.io
                &&& final(self).gpio.fan == old(self).gpio.fan
                &&& final(self).gpio.button_pin == old(self).gpio.button_pin
                &&& final(self).gpio.time_blink == old(self).gpio.time_blink
                &&& final(self).gpio.last_cpu_temperature == old(self).gpio.last_cpu_temperature
                &&& final(self).logic.outputs@ == old(self).logic.outputs@
                &&& (!admitted ==> final(self).gpio.leds@ == l1 && r@ == Seq::<SideEffect>::empty())
                &&& (admitted ==> {
                    let e1 = l1[led_pin as int];
                    &&& final(self).gpio.leds@ == l1.update(
                        led_pin as int,
                        spec_blink_step(e1, blink, time, fre, old(self).logic.tick).0,
                    )
                    &&& r@ == spec_blink_effects(
                        e1,
                        led_pin,
                        blink,
                        time,
                        fre,
                        old(self).logic.tick,
                    ).map_values(|g: GpioEffect| SideEffect::Gpio(g))
                })
            }),
            (out is ButtonBlinkEvent ==> {
                &&& final(self).gpio.status is ButtonPre
                &&& final(self).gpio.leds == old(self).gpio.leds
                &&& final(self).gpio.io == old(self).gpio.io
                &&& final(self).gpio.fan == old(self).gpio.fan
                &&& final(self).gpio.button_pin == old(self).gpio.button_pin
                &&& final(self).gpio.time_blink == old(self).gpio.time_blink
                &&& final(self).gpio.last_cpu_temperature == old(self).gpio.last_cpu_temperature
                &&& final(self).logic.outputs@ == old(self).logic.outputs@
                &&& r@.len() == 1
                &&& (r@[0] matches SideEffect::Gpio(g) && (g matches GpioEffect::StartGesture {
                    led_pins,
                    button_pin,
                    step_ms,
                } && led_pins@ == old(self).gpio.leds@.map_values(|e: LedEntry| e.pin)
                    && button_pin == old(self).gpio.button_pin && step_ms == old(self).gpio.time_blink))
            }),
            (out is ReturnState ==> {
                &&& final(self).gpio.status is LedCtrl
                &&& final(self).gpio.leds == old(self).gpio.leds
                &&& final(self).gpio.io == old(self).gpio.io
                &&& final(self).gpio.fan == old(self).gpio.fan
                &&& final(self).gpio.button_pin == old(self).gpio.button_pin
                &&& final(self).gpio.time_blink == old(self).gpio.time_blink
                &&& final(self).gpio.last_cpu_temperature == old(self).gpio.last_cpu_temperature
                &&& final(self).logic.outputs@ == old(self).logic.outputs@
                &&& r@.len() == 1
                &&& (r@[0] matches SideEffect::Gpio(g) && (g matches GpioEffect::RestoreLeds {
                    writes,
                } && writes@ == spec_restore_writes(old(self).gpio.leds@)))
            }),
            (out matches GpioLogicOut::RelayOnEvent { relay, json_init } ==> {
                &&& final(self).gpio.io@ == spec_relay_set(old(self).gpio.io@, relay as int, true)
                &&& spec_same_but_io(final(self).gpio, old(self).gpio)
                &&& final(self).logic.outputs@ == old(self).logic.outputs@
                &&& r@.len() == 1
                &&& (r@[0] matches SideEffect::Publish { topic, message } && topic is IoStatus && (
                message matches OutMessage::Status { control_source, reqid, records } && {
                    &&& control_source == json_init.control_source
                    &&& reqid == json_init.reqid
                    &&& records@.len() == 1
                    &&& records@[0].on == true
                    &&& records@[0].hash@ == spec_hash(old(self).logic.id_mac@, relay as int)
                }))
            }),
            (out matches GpioLogicOut::RelayOffEvent { relay, json_init } ==> {
                &&& final(self).gpio.io@ == spec_relay_set(old(self).gpio.io@, relay as int, false)
                &&& spec_same_but_io(final(self).gpio, old(self).gpio)
                &&& final(self).logic.outputs@ == old(self).logic.outputs@
                &&& r@.len() == 1
                &&& (r@[0] matches SideEffect::Publish { topic, message } && topic is IoStatus && (
                message matches OutMessage::Status { control_source, reqid, records } && {
                    &&& control_source == json_init.control_source
                    &&& reqid == json_init.reqid
                    &&& records@.len() == 1
                    &&& records@[0].on == false
                    &&& records@[0].hash@ == spec_hash(old(self).logic.id_mac@, relay as int)
                }))
            }),
            (out is ConfigRelayEvent ==> {
                &&& final(self).gpio == old(self).gpio
                &&& final(self).logic.outputs@ == old(self).logic.outputs@
                &&& r@.len() == 2
                &&& (r@[0] matches SideEffect::Publish { topic, message } && topic is IoConfig && (
                message matches OutMessage::Sync { reqid, records } && {
                    &&& reqid@.len() == 12
                    &&& records@.len() == old(self).gpio.io@.len()
                    &&& forall|i: int|
                        0 <= i < old(self).gpio.io@.len() ==> (#[trigger] records@[i]).hash@
                            == spec_hash(old(self).logic.id_mac@, i) && records@[i].is_main == old(self).gpio.io@[i].on
                }))
                &&& (r@[1] matches SideEffect::Publish { topic, message } && topic is IoStatus && (
                message matches OutMessage::Status { control_source, reqid, records } && {
                    &&& control_source is None
                    &&& reqid@.len() == 12
                    &&& records@.len() == old(self).gpio.io@.len()
                    &&& forall|i: int|
                        0 <= i < old(self).gpio.io@.len() ==> (#[trigger] records@[i]).hash@
                            == spec_hash(old(self).logic.id_mac@, i) && records@[i].on == old(self).gpio.io@[i].on
                }))
            }),
            (out is KeepAliveEvent ==> {
                &&& final(self).gpio == old(self).gpio
                &&& final(self).logic.outputs@ == old(self).logic.outputs@
                &&& r@.len() == 1
                &&& (r@[0] matches SideEffect::Publish { topic, message } && topic is KeepAliveIo
                    && (message matches OutMessage::KeepAlive { reqid } && reqid@.len() == 12))
            }),
            (out is CheckTempCpuEvent ==> final(self).gpio == old(self).gpio && final(self).logic.outputs@ == old(self).logic.outputs@ && r@ == seq![SideEffect::CheckTemp]),
            ((out is StopEvent || out is NoneEvent) ==> final(self).gpio == old(self).gpio && final(self).logic.outputs@ == old(self).logic.outputs@ && r@ == Seq::<SideEffect>::empty()),
    {
        if self.gpio.status == StatusGpio::ButtonPre && (matches!(
            out,
            GpioLogicOut::LedOnEvent { .. },
        ) || matches!(out, GpioLogicOut::LedOffEvent { .. }) || matches!(
            out,
            GpioLogicOut::LedBlinkEvent { .. },
        ) || matches!(out, GpioLogicOut::LedBlinkContinueEvent { .. })) {
            self.logic.outputs.push_back(out);
            let mut r: Vec<SideEffect> = Vec::new();
            r.push(SideEffect::DeferredRequeue);
            assert(r@ =~= seq![SideEffect::DeferredRequeue]);
            return r;
        }
        match out {
            GpioLogicOut::LedOnEvent { led_pin } => {
                let effs = self.gpio.send(GpioIn::LedOn { pin: led_pin }).unwrap();
                let r = wrap_gpio_effects(effs);
                assert(r@ =~= Seq::<SideEffect>::empty());
                r
            },
            GpioLogicOut::LedOffEvent { led_pin } => {
                let effs = self.gpio.send(GpioIn::LedOff { pin: led_pin }).unwrap();
                let r = wrap_gpio_effects(effs);
                assert(r@ =~= Seq::<SideEffect>::empty());
                r
            },
            GpioLogicOut::LedBlinkContinueEvent { led_pin, blink, time, fre } => {
                let tick = self.logic.tick;
                let effs = self.gpio.send(
                    GpioIn::LedBlink { pin: led_pin, blink, time, fre, get_tick: tick },
                ).unwrap();
                wrap_gpio_effects(effs)
            },
            GpioLogicOut::LedBlinkEvent { led_pin, blink, time, fre } => {
                self.gpio.status = StatusGpio::Blink;
                let check = self.gpio.blink_parse(led_pin, fre);
                match check {
                    Ok(()) => {
                        let tick = self.logic.tick;
                        let effs = self.gpio.send(
                            GpioIn::LedBlink { pin: led_pin, blink, time, fre, get_tick: tick },
                        ).unwrap();
                        wrap_gpio_effects(effs)
                    },
                    _ => Vec::new(),
                }
            },
            GpioLogicOut::ButtonBlinkEvent => {
                self.gpio.status = StatusGpio::ButtonPre;
                let effs = self.gpio.send(GpioIn::ButonBlink).unwrap();
                wrap_gpio_effects(effs)
            },
            GpioLogicOut::ReturnState => {
                self.gpio.status = StatusGpio::LedCtrl;
                let effs = self.gpio.send(GpioIn::ReturnState).unwrap();
                wrap_gpio_effects(effs)
            },
            GpioLogicOut::RelayOnEvent { relay, json_init } => {
                let _effs = self.gpio.send(GpioIn::RelayOn { pin: relay as u64 }).unwrap();
                let mut pin: Vec<(bool, String)> = Vec::new();
                pin.push((true, make_hash(&self.logic.id_mac, relay as u64)));
                let (mess, _second) = self.json.convert(JsonIn::StatusConvert { json_init, pin });
                let mut r: Vec<SideEffect> = Vec::new();
                r.push(SideEffect::Publish { topic: Topic::IoStatus, message: mess });
                r
            },
            GpioLogicOut::RelayOffEvent { relay, json_init } => {
                let _effs = self.gpio.send(GpioIn::RelayOff { pin: relay as u64 }).unwrap();
                let mut pin: Vec<(bool, String)> = Vec::new();
                pin.push((false, make_hash(&self.logic.id_mac, relay as u64)));
                let (mess, _second) = self.json.convert(JsonIn::StatusConvert { json_init, pin });
                let mut r: Vec<SideEffect> = Vec::new();
                r.push(SideEffect::Publish { topic: Topic::IoStatus, message: mess });
                r
            },
            GpioLogicOut::ConfigRelayEvent => {
                let status = self.gpio.get_value_relay();
                let mac_clone = self.logic.id_mac.clone();
                let (mess_sync, mess_st) = self.json.convert(
                    JsonIn::SyncConvert { status, mac_id: mac_clone },
                );
                let st = mess_st.unwrap();
                let mut r: Vec<SideEffect> = Vec::new();
                r.push(SideEffect::Publish { topic: Topic::IoConfig, message: mess_sync });
                r.push(SideEffect::Publish { topic: Topic::IoStatus, message: st });
                r
            },
            GpioLogicOut::KeepAliveEvent => {
                let (mess, _second) = self.json.convert(JsonIn::KeepAlive);
                let mut r: Vec<SideEffect> = Vec::new();
                r.push(SideEffect::Publish { topic: Topic::KeepAliveIo, message: mess });
                r
            },
            GpioLogicOut::CheckTempCpuEvent => {
                let mut r: Vec<SideEffect> = Vec::new();
                r.push(SideEffect::CheckTemp);
                assert(r@ =~= seq![SideEffect::CheckTemp]);
                r
            },
            GpioLogicOut::StopEvent => Vec::new(),
            GpioLogicOut::NoneEvent => Vec::new(),
        }
    }
}

/// The per-relay records of the status replies to a relay command.
pub open spec fn spec_relay_status_records(mac: Seq<char>, relay: int, on: bool) -> Seq<
    (Seq<char>, bool),
> {
    seq![(spec_hash(mac, relay), on)]
}

/// Turning relay `k` on and then off yields two status replies whose
/// single records carry the same device hash `io-<mac>-k`, with states
/// true and then false; neither reply depends on anything but the
/// identity and the index.
pub proof fn lemma_relay_round_trip(mac: Seq<char>, k: int)
    ensures
        ({
            let first = spec_relay_status_records(mac, k, true);
            let second = spec_relay_status_records(mac, k, false);
            &&& first.len() == 1
            &&& second.len() == 1
            &&& first[0].0 == second[0].0
            &&& first[0].0 == spec_hash(mac, k)
            &&& first[0].1 == true
            &&& second[0].1 == false
        }),
{
}

} // verus!
