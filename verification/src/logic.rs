use vstd::prelude::*;
use std::collections::VecDeque;
use crate::digits::parse_u32_digits;
use crate::digits::parse_usize_or_zero;
use crate::digits::spec_all_digits;
use crate::digits::spec_digits_val;
use crate::digits::spec_parse_usize_or_zero;
use crate::error::OtaErr;
use crate::gpio::GpioOut;
use crate::transport::CommandEnvelope;
use crate::transport::TransportOut;
use vstd::string::StrSliceExecFns;
use vstd::string::StringExecFns;

verus! {

/// The device protocol mode, fixed at startup.
#[derive(Debug, Clone, Copy, PartialEq, Eq, Structural)]
pub enum DeviceOs {
    Ai,
    Hc,
    NoneOs,
}

/// Inputs of the logic engine: a transport event or hardware feedback,
/// each already carrying its error through the same channel.
#[derive(Debug)]
pub enum GpioLogicIn {
    Transport(Result<TransportOut, OtaErr>),
    Gpio(Result<GpioOut, OtaErr>),
}

/// Actions the logic engine queues for the orchestrator.
#[derive(Debug, Clone)]
pub enum GpioLogicOut {
    NoneEvent,
    KeepAliveEvent,
    LedOnEvent { led_pin: u64 },
    LedOffEvent { led_pin: u64 },
    LedBlinkEvent { led_pin: u64, blink: bool, time: u16, fre: u16 },
    LedBlinkContinueEvent { led_pin: u64, blink: bool, time: u16, fre: u16 },
    RelayOnEvent { relay: usize, json_init: CommandEnvelope },
    RelayOffEvent { relay: usize, json_init: CommandEnvelope },
    ConfigRelayEvent,
    StopEvent,
    ButtonBlinkEvent,
    ReturnState,
    CheckTempCpuEvent,
}

/// The protocol translator: consumes transport and hardware events and
/// appends the resulting actions to a FIFO queue, which the
/// orchestrator drains once per loop pass.
#[derive(Debug)]
pub struct OtaLogic {
    pub outputs: VecDeque<GpioLogicOut>,
    pub device: DeviceOs,
    pub id_mac: String,
    pub tick: u64,
}

/// The first index at or after `i` holding the hyphen separator, or the
/// length when there is none.
pub open spec fn spec_sep_from(s: Seq<char>, i: int) -> int
    decreases s.len() - i,
{
    if !(0 <= i < s.len()) {
        s.len() as int
    } else if s[i] == '-' {
        i
    } else {
        spec_sep_from(s, i + 1)
    }
}

/// The device identifier in a hyphen-delimited data string
/// (`prefix-deviceId-relayIndex`): the second field, empty when the
/// string has no separator.
pub open spec fn spec_device_id(s: Seq<char>) -> Seq<char> {
    let i1 = spec_sep_from(s, 0);
    if i1 >= s.len() {
        Seq::empty()
    } else {
        s.subrange(i1 + 1, spec_sep_from(s, i1 + 1))
    }
}

/// The relay index in a hyphen-delimited data string: the third field
/// read as a decimal number, with every failure mapped to 0.
pub open spec fn spec_relay_index(s: Seq<char>) -> int {
    let i1 = spec_sep_from(s, 0);
    if i1 >= s.len() {
        0
    } else {
        let i2 = spec_sep_from(s, i1 + 1);
        if i2 >= s.len() {
            0
        } else {
            spec_parse_usize_or_zero(s.subrange(i2 + 1, spec_sep_from(s, i2 + 1)))
        }
    }
}

/// The LED action for one of the fixed indicator event codes of mode
/// `Ai`.  The last digit selects off/on/blink per category; codes
/// outside the table yield no action.
pub open spec fn spec_parse_led_ai(c: int) -> GpioLogicOut {
    let state = c % 10;
    if c == 22 || c == 23 {
        if state == 2 {
            GpioLogicOut::LedOffEvent { led_pin: 0 }
        } else {
            GpioLogicOut::LedBlinkEvent { led_pin: 0, blink: true, time: 0, fre: 1000 }
        }
    } else if c == 32 || c == 33 || c == 3311 {
        if state == 2 {
            GpioLogicOut::LedBlinkEvent { led_pin: 0, blink: true, time: 0, fre: 2000 }
        } else if state == 3 {
            GpioLogicOut::LedOnEvent { led_pin: 0 }
        } else {
            GpioLogicOut::LedBlinkEvent { led_pin: 0, blink: false, time: 0, fre: 1000 }
        }
    } else if c == 72 || c == 73 || c == 7311 {
        if state == 2 {
            GpioLogicOut::LedOffEvent { led_pin: 1 }
        } else if state == 3 {
            GpioLogicOut::LedOnEvent { led_pin: 1 }
        } else {
            GpioLogicOut::LedBlinkEvent { led_pin: 1, blink: false, time: 0, fre: 1000 }
        }
    } else if c == 42 || c == 43 || c == 4401 {
        if state == 2 {
            GpioLogicOut::LedOffEvent { led_pin: 2 }
        } else if state == 3 {
            GpioLogicOut::LedOnEvent { led_pin: 2 }
        } else {
            GpioLogicOut::LedBlinkEvent { led_pin: 2, blink: true, time: 0, fre: 1000 }
        }
    } else if c == 52 || c == 53 || c == 5401 {
        if state == 2 {
            GpioLogicOut::LedOffEvent { led_pin: 3 }
        } else if state == 3 {
            GpioLogicOut::LedOnEvent { led_pin: 3 }
        } else {
            GpioLogicOut::LedBlinkEvent { led_pin: 3, blink: true, time: 0, fre: 1000 }
        }
    } else {
        GpioLogicOut::NoneEvent
    }
}

/// The LED action of a `set` command without a control source: the
/// event code is read as a number and decoded per device mode.  A
/// missing or malformed code yields no action.
pub open spec fn spec_led_action(env: CommandEnvelope, device: DeviceOs) -> GpioLogicOut {
    match env.event_code {
        Option::None => GpioLogicOut::NoneEvent,
        Option::Some(code_str) => {
            if !(code_str@.len() > 0 && spec_all_digits(code_str@) && spec_digits_val(code_str@)
                <= u32::MAX) {
                GpioLogicOut::NoneEvent
            } else {
                let c = spec_digits_val(code_str@);
                if device is Hc {
                    let pin = c / 10;
                    let state = c % 10;
                    if pin < 2 {
                        GpioLogicOut::StopEvent
                    } else if state == 3 {
                        GpioLogicOut::LedOnEvent { led_pin: (pin - 2) as u64 }
                    } else if state == 2 {
                        GpioLogicOut::LedOffEvent { led_pin: (pin - 2) as u64 }
                    } else if state == 1 {
                        GpioLogicOut::LedBlinkEvent {
                            led_pin: (pin - 2) as u64,
                            blink: false,
                            time: 20,
                            fre: 1,
                        }
                    } else {
                        GpioLogicOut::StopEvent
                    }
                } else {
                    spec_parse_led_ai(c)
                }
            }
        },
    }
}

/// The relay action of a `set` command with a control source: the data
/// string names a device and a relay index; only a command addressed to
/// this device yields an action, which keeps the envelope for the
/// status reply.
pub open spec fn spec_relay_action(env: CommandEnvelope, id_mac: Seq<char>) -> GpioLogicOut {
    let device_id = spec_device_id(env.data_first@);
    let relay = spec_relay_index(env.data_first@);
    if id_mac == device_id {
        if env.params_on {
            GpioLogicOut::RelayOnEvent { relay: relay as usize, json_init: env }
        } else {
            GpioLogicOut::RelayOffEvent { relay: relay as usize, json_init: env }
        }
    } else {
        GpioLogicOut::NoneEvent
    }
}

/// The actions one input event appends to the queue, in order.
pub open spec fn spec_on_event_emits(
    event: GpioLogicIn,
    device: DeviceOs,
    id_mac: Seq<char>,
) -> Seq<GpioLogicOut> {
    match event {
        GpioLogicIn::Transport(res) => match res {
            Ok(t) => match t {
                TransportOut::ResponseMqttEvent(env) => {
                    if env.cmd@ == "set"@ {
                        if env.control_source is Some {
                            seq![spec_relay_action(env, id_mac)]
                        } else {
                            seq![spec_led_action(env, device)]
                        }
                    } else if env.cmd@ == "get"@ {
                        if device is Ai {
                            seq![GpioLogicOut::ConfigRelayEvent]
                        } else {
                            seq![GpioLogicOut::NoneEvent]
                        }
                    } else {
                        Seq::empty()
                    }
                },
            },
            Err(_) => Seq::empty(),
        },
        GpioLogicIn::Gpio(res) => match res {
            Ok(g) => match g {
                GpioOut::LedBlinkContinue { led_pin, blink, time, fre } => seq![
                    GpioLogicOut::LedBlinkContinueEvent { led_pin, blink, time, fre },
                ],
                GpioOut::Stop => seq![GpioLogicOut::StopEvent],
                GpioOut::ButtonPressed => seq![GpioLogicOut::ButtonBlinkEvent],
                GpioOut::ButtonReleased => seq![GpioLogicOut::ReturnState],
                _ => Seq::empty(),
            },
            Err(_) => Seq::empty(),
        },
    }
}

impl OtaLogic {
    /// A fresh engine; the queue starts with one empty action, as a
    /// primer for the first drain pass.
    pub fn new(device: DeviceOs, mac: String) -> (r: OtaLogic)
        ensures
            r.outputs@ =~= seq![GpioLogicOut::NoneEvent],
            r.device == device,
            r.id_mac == mac,
            r.tick == 0,
    {
        let mut outputs: VecDeque<GpioLogicOut> = VecDeque::new();
        outputs.push_back(GpioLogicOut::NoneEvent);
        OtaLogic { outputs, device, id_mac: mac, tick: 0 }
    }

    /// Splits a hyphen-delimited data string into the device identifier
    /// (second field) and the relay index (third field, decimal, 0 on
    /// any failure), matching `spec_device_id` and `spec_relay_index`.
    pub fn parse_data_string(&mut self, data: &str) -> (r: (String, usize))
        ensures
            *final(self) == *old(self),
            r.0@ == spec_device_id(data@),
            r.1 == spec_relay_index(data@),
    {
        let n = data.unicode_len();
        let i1 = find_sep(data, 0);
        if i1 >= n {
            let empty = String::new();
            assert(empty@ =~= spec_device_id(data@));
            return (empty, 0);
        }
        let i2 = find_sep(data, i1 + 1);
        let device_id = data.substring_char(i1 + 1, i2).to_owned();
        if i2 >= n {
            return (device_id, 0);
        }
        let i3 = find_sep(data, i2 + 1);
        let idx = parse_usize_or_zero(data.substring_char(i2 + 1, i3));
        (device_id, idx)
    }

    /// Decodes one of mode `Ai`'s fixed indicator event codes (see
    /// `spec_parse_led_ai`).
    pub fn parse_led_ai(&mut self, event_code: u32) -> (r: GpioLogicOut)
        ensures
            *final(self) == *old(self),
            r == spec_parse_led_ai(event_code as int),
    {
        let state = event_code % 10;
        match event_code {
            22u32 | 23u32 => {
                if state == 2 {
                    GpioLogicOut::LedOffEvent { led_pin: 0 }
                } else {
                    GpioLogicOut::LedBlinkEvent { led_pin: 0, blink: true, time: 0, fre: 1000 }
                }
            },
            32u32 | 33u32 | 3311u32 => {
                if state == 2 {
                    GpioLogicOut::LedBlinkEvent { led_pin: 0, blink: true, time: 0, fre: 2000 }
                } else if state == 3 {
                    GpioLogicOut::LedOnEvent { led_pin: 0 }
                } else {
                    GpioLogicOut::LedBlinkEvent { led_pin: 0, blink: false, time: 0, fre: 1000 }
                }
            },
            72u32 | 73u32 | 7311u32 => {
                if state == 2 {
                    GpioLogicOut::LedOffEvent { led_pin: 1 }
                } else if state == 3 {
                    GpioLogicOut::LedOnEvent { led_pin: 1 }
                } else {
                    GpioLogicOut::LedBlinkEvent { led_pin: 1, blink: false, time: 0, fre: 1000 }
                }
            },
            42u32 | 43u32 | 4401u32 => {
                if state == 2 {
                    GpioLogicOut::LedOffEvent { led_pin: 2 }
                } else if state == 3 {
                    GpioLogicOut::LedOnEvent { led_pin: 2 }
                } else {
                    GpioLogicOut::LedBlinkEvent { led_pin: 2, blink: true, time: 0, fre: 1000 }
                }
            },
            52u32 | 53u32 | 5401u32 => {
                if state == 2 {
                    GpioLogicOut::LedOffEvent { led_pin: 3 }
                } else if state == 3 {
                    GpioLogicOut::LedOnEvent { led_pin: 3 }
                } else {
                    GpioLogicOut::LedBlinkEvent { led_pin: 3, blink: true, time: 0, fre: 1000 }
                }
            },
            _ => GpioLogicOut::NoneEvent,
        }
    }

    /// The relay path of a `set` command (see `spec_relay_action`).
    pub fn relay_handle(&mut self, env: CommandEnvelope) -> (r: GpioLogicOut)
        ensures
            *final(self) == *old(self),
            r == spec_relay_action(env, old(self).id_mac@),
    {
        let (device_id, relay) = self.parse_data_string(env.data_first.as_str());
        if self.id_mac == device_id {
            if env.params_on {
                GpioLogicOut::RelayOnEvent { relay, json_init: env }
            } else {
                GpioLogicOut::RelayOffEvent { relay, json_init: env }
            }
        } else {
            GpioLogicOut::NoneEvent
        }
    }

    /// The LED path of a `set` command (see `spec_led_action`).
    pub fn led_handle(&mut self, env: &CommandEnvelope, device: DeviceOs) -> (r: GpioLogicOut)
        ensures
            *final(self) == *old(self),
            r == spec_led_action(*env, device),
    {
        match &env.event_code {
            Option::None => GpioLogicOut::NoneEvent,
            Option::Some(code_str) => {
                match parse_u32_digits(code_str.as_str()) {
                    Option::None => GpioLogicOut::NoneEvent,
                    Option::Some(c) => {
                        if device == DeviceOs::Hc {
                            let pin = c / 10;
                            let state = c % 10;
                            if pin < 2 {
                                GpioLogicOut::StopEvent
                            } else if state == 3 {
                                GpioLogicOut::LedOnEvent { led_pin: (pin - 2) as u64 }
                            } else if state == 2 {
                                GpioLogicOut::LedOffEvent { led_pin: (pin - 2) as u64 }
                            } else if state == 1 {
                                GpioLogicOut::LedBlinkEvent {
                                    led_pin: (pin - 2) as u64,
                                    blink: false,
                                    time: 20,
                                    fre: 1,
                                }
                            } else {
                                GpioLogicOut::StopEvent
                            }
                        } else {
                            self.parse_led_ai(c)
                        }
                    },
                }
            },
        }
    }

    /// The resync action of a `get` command: mode `Ai` republishes the
    /// relay configuration, other modes do nothing.
    pub fn sync_handle(&mut self, device: DeviceOs) -> (r: GpioLogicOut)
        ensures
            *final(self) == *old(self),
            r == (if device is Ai {
                GpioLogicOut::ConfigRelayEvent
            } else {
                GpioLogicOut::NoneEvent
            }),
    {
        if device == DeviceOs::Ai {
            GpioLogicOut::ConfigRelayEvent
        } else {
            GpioLogicOut::NoneEvent
        }
    }

    /// Consumes one input event and appends the resulting actions to
    /// the queue, in order (see `spec_on_event_emits`); the mode, the
    /// identity and the tick are untouched.
    pub fn on_event(&mut self, event: GpioLogicIn)
        ensures
            final(self).outputs@ == old(self).outputs@ + spec_on_event_emits(
                event,
                old(self).device,
                old(self).id_mac@,
            ),
            final(self).device == old(self).device,
            final(self).id_mac == old(self).id_mac,
            final(self).tick == old(self).tick,
    {
        let ghost emitted = spec_on_event_emits(event, self.device, self.id_mac@);
        match event {
            GpioLogicIn::Transport(result) => {
                match result {
                    Ok(transport) => {
                        match transport {
                            TransportOut::ResponseMqttEvent(env) => {
                                let set_word = String::from_str("set");
                                let get_word = String::from_str("get");
                                if env.cmd == set_word {
                                    if env.control_source.is_some() {
                                        let res = self.relay_handle(env);
                                        self.outputs.push_back(res);
                                    } else {
                                        let res = self.led_handle(&env, self.device);
                                        self.outputs.push_back(res);
                                    }
                                } else if env.cmd == get_word {
                                    let res = self.sync_handle(self.device);
                                    self.outputs.push_back(res);
                                }
                            },
                        }
                    },
                    Err(_) => {},
                }
            },
            GpioLogicIn::Gpio(result) => {
                match result {
                    Ok(gpio) => {
                        match gpio {
                            GpioOut::LedBlinkContinue { led_pin, blink, time, fre } => {
                                self.outputs.push_back(
                                    GpioLogicOut::LedBlinkContinueEvent {
                                        led_pin,
                                        blink,
                                        time,
                                        fre,
                                    },
                                );
                            },
                            GpioOut::Stop => {
                                self.outputs.push_back(GpioLogicOut::StopEvent);
                            },
                            GpioOut::ButtonPressed => {
                                self.outputs.push_back(GpioLogicOut::ButtonBlinkEvent);
                            },
                            GpioOut::ButtonReleased => {
                                self.outputs.push_back(GpioLogicOut::ReturnState);
                            },
                            GpioOut::LedTwoReleased => {},
                            GpioOut::LedThreeReleased => {},
                            GpioOut::LedFourReleased => {},
                            GpioOut::LedFiveReleased => {},
                        }
                    },
                    Err(_) => {},
                }
            },
        }
        assert(self.outputs@ =~= old(self).outputs@ + emitted);
    }

    /// Removes and returns the action at the head of the queue.
    pub fn pop_action(&mut self) -> (r: Option<GpioLogicOut>)
        ensures
            old(self).outputs@.len() == 0 ==> r is None && final(self).outputs@ == old(self).outputs@,
            old(self).outputs@.len() > 0 ==> r == Some(old(self).outputs@[0])
                && final(self).outputs@ == old(self).outputs@.subrange(
                1,
                old(self).outputs@.len() as int,
            ),
            final(self).device == old(self).device,
            final(self).id_mac == old(self).id_mac,
            final(self).tick == old(self).tick,
    {
        self.outputs.pop_front()
    }
}

/// Scans for the next hyphen from `from` (see `spec_sep_from`).
fn find_sep(s: &str, from: usize) -> (r: usize)
    requires
        from <= s@.len(),
    ensures
        r == spec_sep_from(s@, from as int),
        from <= r <= s@.len(),
{
    let n = s.unicode_len();
    let mut i: usize = from;
    while i < n && s.get_char(i) != '-'
        invariant
            from <= i <= n,
            n == s@.len(),
            spec_sep_from(s@, from as int) == spec_sep_from(s@, i as int),
        decreases n - i,
    {
        i += 1;
    }
    i
}

} // verus!
