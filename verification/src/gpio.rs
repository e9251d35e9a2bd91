use vstd::prelude::*;
use crate::digits::parse_u32_digits;
use crate::digits::spec_all_digits;
use crate::digits::spec_digits_val;
use crate::error::OtaErr;
use vstd::string::StrSliceExecFns;

verus! {

/// Commands the orchestrator hands to the GPIO bank.
#[derive(Debug, Clone, PartialEq, Eq, Structural)]
pub enum GpioIn {
    LedOn { pin: u64 },
    LedOff { pin: u64 },
    LedBlink { pin: u64, blink: bool, time: u16, fre: u16, get_tick: u64 },
    RelayOn { pin: u64 },
    RelayOff { pin: u64 },
    ButonBlink,
    ReturnState,
    FanModeLv1,
    FanModeLv2,
    FanModeLv3,
}

/// Feedback the GPIO bank produces for the logic engine.
#[derive(Debug, Clone, PartialEq, Eq, Structural)]
pub enum GpioOut {
    Stop,
    LedBlinkContinue { led_pin: u64, blink: bool, time: u16, fre: u16 },
    ButtonPressed,
    ButtonReleased,
    LedTwoReleased,
    LedThreeReleased,
    LedFourReleased,
    LedFiveReleased,
}

/// The orchestrator's lock over LED hardware.  `ButtonPre` grants the
/// button walking gesture exclusive ownership of every LED line.
#[derive(Debug, Clone, Copy, PartialEq, Eq, Structural)]
pub enum StatusGpio {
    Blink,
    ButtonPre,
    LedCtrl,
}

/// Logical state of one LED.
#[derive(Debug, Clone, Copy, PartialEq, Eq, Structural)]
pub enum LedState {
    On,
    Off,
    Blink,
}

/// One LED with its blink-session bookkeeping.
///
/// `toggle_count` is only meaningful while `state` is `Blink`; it is
/// reset to 0 whenever the entry leaves `Blink`.  `session_token` is the
/// period value that started the current blink session and doubles as a
/// generation id for duplicate-command suppression.
#[derive(Debug, Clone, Copy, PartialEq, Eq, Structural)]
pub struct LedEntry {
    pub pin: u64,
    pub state: LedState,
    pub last_toggle_tick: u64,
    pub toggle_count: u8,
    pub session_token: u16,
}

/// One relay: hardware line and logical on/off flag.
#[derive(Debug, Clone, Copy, PartialEq, Eq, Structural)]
pub struct RelayEntry {
    pub pin: u64,
    pub on: bool,
}

/// Hardware work the caller must carry out after a GPIO transition.
/// The bank itself never touches a pin; it decides, the caller acts.
#[derive(Debug, Clone)]
pub enum GpioEffect {
    /// Toggle the physical output of this hardware line.
    TogglePin { pin: u64 },
    /// Re-issue a blink continuation for the LED at index `led_pin`
    /// after `delay_ms` milliseconds.
    ScheduleContinue { led_pin: u64, blink: bool, time: u16, fre: u16, delay_ms: u16 },
    /// Run the button walking gesture over these hardware lines.
    StartGesture { led_pins: Vec<u64>, button_pin: u64, step_ms: u64 },
    /// Read the live LED values, resolve the selection, then write each
    /// `(line, value)` pair back.  Blinking entries are not listed: their
    /// output is left to the blink scheduler.
    RestoreLeds { writes: Vec<(u64, u8)> },
}

/// The debounced reader of the hardware button: remembers the last
/// observed value and reports transitions only.
#[derive(Debug, Clone, Copy, PartialEq, Eq, Structural)]
pub struct ButtonDriver {
    pub button_pin: u64,
    pub last_value: u8,
}

/// The GPIO bank: LED entries, relay flags, fan lines and the lock.
#[derive(Debug, Clone)]
pub struct GpioDriver {
    pub leds: Vec<LedEntry>,
    pub io: Vec<RelayEntry>,
    pub fan: Vec<u64>,
    pub button_pin: u64,
    pub status: StatusGpio,
    pub time_blink: u64,
    pub last_cpu_temperature: u32,
}

/// The value written to a hardware line for a logical LED state
/// (active low: 0 drives the LED on).
pub open spec fn spec_hw_value(s: LedState) -> u8 {
    match s {
        LedState::On => 0,
        LedState::Off => 1,
        LedState::Blink => 1,
    }
}

/// Everything of the driver except the LED bank is unchanged.
pub open spec fn spec_same_but_leds(a: GpioDriver, b: GpioDriver) -> bool {
    &&& a.io == b.io
    &&& a.fan == b.fan
    &&& a.button_pin == b.button_pin
    &&& a.status == b.status
    &&& a.time_blink == b.time_blink
    &&& a.last_cpu_temperature == b.last_cpu_temperature
}

/// Everything of the driver except the relay bank is unchanged.
pub open spec fn spec_same_but_io(a: GpioDriver, b: GpioDriver) -> bool {
    &&& a.leds == b.leds
    &&& a.fan == b.fan
    &&& a.button_pin == b.button_pin
    &&& a.status == b.status
    &&& a.time_blink == b.time_blink
    &&& a.last_cpu_temperature == b.last_cpu_temperature
}

/// Setting one LED's logical state; an out-of-range index is ignored.
pub open spec fn spec_led_set(leds: Seq<LedEntry>, pin: int, st: LedState) -> Seq<LedEntry> {
    if 0 <= pin < leds.len() {
        leds.update(pin, LedEntry { state: st, ..leds[pin] })
    } else {
        leds
    }
}

/// Setting one relay's flag; an out-of-range index is ignored.
pub open spec fn spec_relay_set(io: Seq<RelayEntry>, pin: int, on: bool) -> Seq<RelayEntry> {
    if 0 <= pin < io.len() {
        io.update(pin, RelayEntry { on, ..io[pin] })
    } else {
        io
    }
}

/// Session admission: a candidate token `fre` different from the stored
/// one is admitted and stored; an identical one is rejected.  Returns
/// the new bank and whether the session was admitted.
pub open spec fn spec_blink_admit(leds: Seq<LedEntry>, pin: int, fre: u16) -> (Seq<
    LedEntry,
>, bool) {
    if 0 <= pin < leds.len() {
        let e = leds[pin];
        if e.session_token != fre {
            (leds.update(pin, LedEntry { session_token: fre, ..e }), true)
        } else {
            (leds, false)
        }
    } else {
        (leds, false)
    }
}

/// One step of the blink session for one entry, at tick `get_tick`:
/// returns the new entry, whether the pin is toggled, and whether a
/// continuation is rescheduled.  The session terminates exactly when a
/// step decides not to reschedule.
pub open spec fn spec_blink_step(e: LedEntry, blink: bool, time: u16, fre: u16, get_tick: u64) -> (
    LedEntry,
    bool,
    bool,
) {
    let e1 = if e.toggle_count == 0 {
        LedEntry { state: LedState::Blink, ..e }
    } else {
        e
    };
    if e1.state != LedState::Blink {
        (LedEntry { toggle_count: 0, ..e1 }, false, false)
    } else if get_tick - e1.last_toggle_tick >= fre / 100 {
        let c2 = if e1.toggle_count == 255 {
            0u8
        } else {
            (e1.toggle_count + 1) as u8
        };
        let e2 = LedEntry { last_toggle_tick: get_tick, toggle_count: c2, ..e1 };
        if !blink && c2 >= time {
            (LedEntry { toggle_count: 0, ..e2 }, true, false)
        } else {
            (e2, true, true)
        }
    } else {
        (e1, false, true)
    }
}

/// The hardware effects of one blink step on the entry at index `idx`.
pub open spec fn spec_blink_effects(
    e: LedEntry,
    idx: u64,
    blink: bool,
    time: u16,
    fre: u16,
    get_tick: u64,
) -> Seq<GpioEffect> {
    let (e2, toggled, resched) = spec_blink_step(e, blink, time, fre, get_tick);
    let base: Seq<GpioEffect> = if toggled {
        seq![GpioEffect::TogglePin { pin: e.pin }]
    } else {
        seq![]
    };
    if resched {
        base.push(
            GpioEffect::ScheduleContinue { led_pin: idx, blink, time, fre, delay_ms: fre },
        )
    } else {
        base
    }
}

/// Whether a blink command applies to the bank: the index is in range
/// and the stored session token matches the command's period.
pub open spec fn spec_blink_applies(d: GpioDriver, pin: u64, fre: u16) -> bool {
    pin < d.leds.len() && d.leds[pin as int].session_token == fre
}

/// The restoration writes after a gesture: every non-blinking entry's
/// logical state, as a hardware value, in bank order.
pub open spec fn spec_restore_writes(leds: Seq<LedEntry>) -> Seq<(u64, u8)>
    decreases leds.len(),
{
    if leds.len() == 0 {
        Seq::empty()
    } else {
        let rest = spec_restore_writes(leds.drop_last());
        let e = leds.last();
        if e.state is Blink {
            rest
        } else {
            rest.push((e.pin, spec_hw_value(e.state)))
        }
    }
}

/// The fan level for a reading `t` given the previous reading `last`,
/// using boundaries 48/52/58/62 with hysteresis in the two ambiguous
/// bands: while cooling the lower level wins, while warming the higher.
/// Meaningful when `t != last`.
pub open spec fn spec_fan_level(last: int, t: int) -> int {
    if t < 48 {
        1
    } else if t <= 52 {
        if t < last {
            1
        } else {
            2
        }
    } else if t <= 58 {
        2
    } else if t <= 62 {
        if t < last {
            2
        } else {
            3
        }
    } else {
        3
    }
}

/// The fan command for a reading: none when the reading repeats
/// unchanged, else the command for its level.
pub open spec fn spec_fan_action(last: int, t: int) -> Option<GpioIn> {
    if t == last {
        None
    } else if spec_fan_level(last, t) == 1 {
        Some(GpioIn::FanModeLv1)
    } else if spec_fan_level(last, t) == 2 {
        Some(GpioIn::FanModeLv2)
    } else {
        Some(GpioIn::FanModeLv3)
    }
}

impl GpioDriver {
    /// Builds the bank: every LED starts `Off` with an empty session,
    /// every relay starts off, the lock starts at `LedCtrl`.
    pub fn new(
        led_vec: Vec<u64>,
        io_vec: Vec<u64>,
        fan_vec: Vec<u64>,
        time_blink: u64,
        button_pin: u64,
    ) -> (r: GpioDriver)
        ensures
            r.leds@.len() == led_vec@.len(),
            forall|i: int|
                0 <= i < led_vec@.len() ==> r.leds@[i] == (LedEntry {
                    pin: led_vec@[i],
                    state: LedState::Off,
                    last_toggle_tick: 0,
                    toggle_count: 0,
                    session_token: 0,
                }),
            r.io@.len() == io_vec@.len(),
            forall|i: int|
                0 <= i < io_vec@.len() ==> r.io@[i] == (RelayEntry { pin: io_vec@[i], on: false }),
            r.fan@ == fan_vec@,
            r.button_pin == button_pin,
            r.status == StatusGpio::LedCtrl,
            r.time_blink == time_blink,
            r.last_cpu_temperature == 0,
    {
        let mut leds: Vec<LedEntry> = Vec::new();
        let mut i: usize = 0;
        while i < led_vec.len()
            invariant
                0 <= i <= led_vec@.len(),
                leds@.len() == i,
                forall|j: int|
                    0 <= j < i ==> leds@[j] == (LedEntry {
                        pin: led_vec@[j],
                        state: LedState::Off,
                        last_toggle_tick: 0,
                        toggle_count: 0,
                        session_token: 0,
                    }),
            decreases led_vec@.len() - i,
        {
            leds.push(
                LedEntry {
                    pin: led_vec[i],
                    state: LedState::Off,
                    last_toggle_tick: 0,
                    toggle_count: 0,
                    session_token: 0,
                },
            );
            i += 1;
        }
        let mut ios: Vec<RelayEntry> = Vec::new();
        let mut k: usize = 0;
        while k < io_vec.len()
            invariant
                0 <= k <= io_vec@.len(),
                ios@.len() == k,
                forall|j: int|
                    0 <= j < k ==> ios@[j] == (RelayEntry { pin: io_vec@[j], on: false }),
            decreases io_vec@.len() - k,
        {
            ios.push(RelayEntry { pin: io_vec[k], on: false });
            k += 1;
        }
        GpioDriver {
            leds,
            io: ios,
            fan: fan_vec,
            button_pin,
            status: StatusGpio::LedCtrl,
            time_blink,
            last_cpu_temperature: 0,
        }
    }

    /// Session admission for a blink command (see `spec_blink_admit`):
    /// `Ok` exactly when the candidate token differs from the stored one;
    /// a repeat of the running session's token is rejected with
    /// `RepeatErr`, as is an out-of-range index.
    pub fn blink_parse(&mut self, pin: u64, fre_init: u16) -> (r: Result<(), OtaErr>)
        ensures
            final(self).leds@ == spec_blink_admit(old(self).leds@, pin as int, fre_init).0,
            spec_same_but_leds(*final(self), *old(self)),
            r is Ok <==> spec_blink_admit(old(self).leds@, pin as int, fre_init).1,
            r is Err ==> r == Err::<(), OtaErr>(OtaErr::RepeatErr),
    {
        if pin < self.leds.len() as u64 {
            let i = pin as usize;
            let e = self.leds[i];
            if e.session_token != fre_init {
                self.leds.set(i, LedEntry { session_token: fre_init, ..e });
                Ok(())
            } else {
                self.leds.set(i, LedEntry { session_token: fre_init, ..e });
                assert(self.leds@ =~= old(self).leds@);
                Err(OtaErr::RepeatErr)
            }
        } else {
            Err(OtaErr::RepeatErr)
        }
    }

    /// One blink step at tick `get_tick` (see `spec_blink_step`): applies
    /// only when the command's period matches the entry's session token.
    pub fn blink_step(&mut self, pin: u64, blink: bool, time: u16, fre: u16, get_tick: u64) -> (r:
        Vec<GpioEffect>)
        ensures
            spec_same_but_leds(*final(self), *old(self)),
            !spec_blink_applies(*old(self), pin, fre) ==> *final(self) == *old(self) && r@
                == Seq::<GpioEffect>::empty(),
            spec_blink_applies(*old(self), pin, fre) ==> {
                let e = old(self).leds@[pin as int];
                &&& final(self).leds@ == old(self).leds@.update(
                    pin as int,
                    spec_blink_step(e, blink, time, fre, get_tick).0,
                )
                &&& r@ == spec_blink_effects(e, pin, blink, time, fre, get_tick)
            },
    {
        let mut effs: Vec<GpioEffect> = Vec::new();
        if pin < self.leds.len() as u64 {
            let i = pin as usize;
            let e = self.leds[i];
            if e.session_token == fre {
                let e1 = if e.toggle_count == 0 {
                    LedEntry { state: LedState::Blink, ..e }
                } else {
                    e
                };
                if e1.state != LedState::Blink {
                    self.leds.set(i, LedEntry { toggle_count: 0, ..e1 });
                    return effs;
                }
                let period: u64 = (fre / 100) as u64;
                if get_tick >= e1.last_toggle_tick && get_tick - e1.last_toggle_tick >= period {
                    let c2: u8 = if e1.toggle_count == 255 {
                        0
                    } else {
                        e1.toggle_count + 1
                    };
                    let e2 = LedEntry { last_toggle_tick: get_tick, toggle_count: c2, ..e1 };
                    effs.push(GpioEffect::TogglePin { pin: e.pin });
                    if !blink && c2 as u16 >= time {
                        self.leds.set(i, LedEntry { toggle_count: 0, ..e2 });
                        return effs;
                    }
                    self.leds.set(i, e2);
                    effs.push(
                        GpioEffect::ScheduleContinue {
                            led_pin: pin,
                            blink,
                            time,
                            fre,
                            delay_ms: fre,
                        },
                    );
                    return effs;
                } else {
                    self.leds.set(i, e1);
                    effs.push(
                        GpioEffect::ScheduleContinue {
                            led_pin: pin,
                            blink,
                            time,
                            fre,
                            delay_ms: fre,
                        },
                    );
                    return effs;
                }
            }
        }
        effs
    }

    /// The hysteresis fan controller: records the reading and returns
    /// the fan command, none when the reading repeats unchanged.
    pub fn control_fan(&mut self, cpu_temperature: u32) -> (r: Option<GpioIn>)
        ensures
            *final(self) == (GpioDriver { last_cpu_temperature: cpu_temperature, ..*old(self) }),
            r == spec_fan_action(old(self).last_cpu_temperature as int, cpu_temperature as int),
    {
        let last = self.last_cpu_temperature;
        self.last_cpu_temperature = cpu_temperature;
        if cpu_temperature == last {
            None
        } else if cpu_temperature < 48 {
            Some(GpioIn::FanModeLv1)
        } else if cpu_temperature <= 52 {
            if cpu_temperature < last {
                Some(GpioIn::FanModeLv1)
            } else {
                Some(GpioIn::FanModeLv2)
            }
        } else if cpu_temperature <= 58 {
            Some(GpioIn::FanModeLv2)
        } else if cpu_temperature <= 62 {
            if cpu_temperature < last {
                Some(GpioIn::FanModeLv2)
            } else {
                Some(GpioIn::FanModeLv3)
            }
        } else {
            Some(GpioIn::FanModeLv3)
        }
    }

    /// Snapshot of the relay flags, in index order.
    pub fn get_value_relay(&mut self) -> (r: Vec<bool>)
        ensures
            *final(self) == *old(self),
            r@ == old(self).io@.map_values(|e: RelayEntry| e.on),
    {
        let mut states: Vec<bool> = Vec::new();
        let mut i: usize = 0;
        while i < self.io.len()
            invariant
                0 <= i <= self.io@.len(),
                self == old(self),
                states@ =~= self.io@.subrange(0, i as int).map_values(|e: RelayEntry| e.on),
            decreases self.io@.len() - i,
        {
            states.push(self.io[i].on);
            proof {
                assert(self.io@.subrange(0, i + 1 as int) =~= self.io@.subrange(0, i as int).push(
                    self.io@[i as int],
                ));
                assert(states@ =~= self.io@.subrange(0, i + 1 as int).map_values(
                    |e: RelayEntry| e.on,
                ));
            }
            i += 1;
        }
        proof {
            assert(self.io@.subrange(0, self.io@.len() as int) =~= self.io@);
        }
        states
    }
}

/// The index the gesture walk stopped at, read off the live hardware
/// values: the first line whose value is the off level (1), or -1 when
/// none is.
pub open spec fn spec_first_off_from(s: Seq<u8>, i: int) -> int
    decreases s.len() - i,
{
    if !(0 <= i < s.len()) {
        -1
    } else if s[i] == 1 {
        i
    } else {
        spec_first_off_from(s, i + 1)
    }
}

/// The released-selection signal for a stop position: 1-based with the
/// first LED excluded, out-of-range and none-found both map to `Stop`.
pub open spec fn spec_release_signal(i: int) -> GpioOut {
    if i == 1 {
        GpioOut::LedTwoReleased
    } else if i == 2 {
        GpioOut::LedThreeReleased
    } else if i == 3 {
        GpioOut::LedFourReleased
    } else if i == 4 {
        GpioOut::LedFiveReleased
    } else {
        GpioOut::Stop
    }
}

/// Phase of the button walking gesture.
#[derive(Debug, Clone, Copy, PartialEq, Eq, Structural)]
pub enum GesturePhase {
    /// Walking forward, about to turn off the LED at this index.
    Forward { next: usize },
    /// The forward pass is over; one more read decides on the replay.
    PostCheck,
    /// Walking back, about to turn the LED at this index on again.
    Replay { next: usize },
    /// The gesture is over; whether a completed loop is to be signalled.
    Done { emit_pressed: bool },
}

/// A phase's indices stay inside the bank.
pub open spec fn spec_gesture_phase_ok(n: int, phase: GesturePhase) -> bool {
    match phase {
        GesturePhase::Forward { next } => next < n,
        GesturePhase::Replay { next } => next < n,
        _ => true,
    }
}

/// One decision of the walking gesture, from the current phase and a
/// fresh button read: the hardware write to perform (if any) and the
/// next phase.  A released button (value 1) aborts the walk early.
pub open spec fn spec_gesture_step(leds: Seq<LedEntry>, phase: GesturePhase, v: u8) -> (Option<
    (u64, u8),
>, GesturePhase) {
    match phase {
        GesturePhase::Forward { next } => {
            if v == 1 {
                (None::<(u64, u8)>, GesturePhase::PostCheck)
            } else {
                let w = Some((leds[next as int].pin, 0u8));
                if next + 1 == leds.len() {
                    (w, GesturePhase::PostCheck)
                } else {
                    (w, GesturePhase::Forward { next: (next + 1) as usize })
                }
            }
        },
        GesturePhase::PostCheck => {
            if v == 0 {
                if leds.len() == 0 {
                    (None::<(u64, u8)>, GesturePhase::Done { emit_pressed: true })
                } else {
                    (None::<(u64, u8)>, GesturePhase::Replay { next: 0 })
                }
            } else {
                (None::<(u64, u8)>, GesturePhase::Done { emit_pressed: false })
            }
        },
        GesturePhase::Replay { next } => {
            if v == 1 {
                (None::<(u64, u8)>, GesturePhase::Done { emit_pressed: true })
            } else {
                let w = Some((leds[next as int].pin, 1u8));
                if next + 1 == leds.len() {
                    (w, GesturePhase::Done { emit_pressed: true })
                } else {
                    (w, GesturePhase::Replay { next: (next + 1) as usize })
                }
            }
        },
        GesturePhase::Done { .. } => (None::<(u64, u8)>, phase),
    }
}

impl GpioDriver {
    /// Applies one command to the bank and returns the hardware work the
    /// caller must carry out.  Out-of-range LED and relay indices are
    /// silently ignored; the call itself never fails.
    pub fn send(&mut self, event: GpioIn) -> (r: Result<Vec<GpioEffect>, OtaErr>)
        ensures
            r is Ok,
            (event matches GpioIn::LedOn { pin } ==> {
                &&& final(self).leds@ == spec_led_set(old(self).leds@, pin as int, LedState::On)
                &&& spec_same_but_leds(*final(self), *old(self))
                &&& (r matches Ok(effs) && effs@ == Seq::<GpioEffect>::empty())
            }),
            (event matches GpioIn::LedOff { pin } ==> {
                &&& final(self).leds@ == spec_led_set(old(self).leds@, pin as int, LedState::Off)
                &&& spec_same_but_leds(*final(self), *old(self))
                &&& (r matches Ok(effs) && effs@ == Seq::<GpioEffect>::empty())
            }),
            (event matches GpioIn::LedBlink { pin, blink, time, fre, get_tick } ==> {
                &&& spec_same_but_leds(*final(self), *old(self))
                &&& (!spec_blink_applies(*old(self), pin, fre) ==> *final(self) == *old(self) && (
                r matches Ok(effs) && effs@ == Seq::<GpioEffect>::empty()))
                &&& (spec_blink_applies(*old(self), pin, fre) ==> {
                    let e = old(self).leds@[pin as int];
                    &&& final(self).leds@ == old(self).leds@.update(
                        pin as int,
                        spec_blink_step(e, blink, time, fre, get_tick).0,
                    )
                    &&& (r matches Ok(effs) && effs@ == spec_blink_effects(
                        e,
                        pin,
                        blink,
                        time,
                        fre,
                        get_tick,
                    ))
                })
            }),
            (event matches GpioIn::RelayOn { pin } ==> {
                &&& final(self).io@ == spec_relay_set(old(self).io@, pin as int, true)
                &&& spec_same_but_io(*final(self), *old(self))
                &&& (r matches Ok(effs) && effs@ == Seq::<GpioEffect>::empty())
            }),
            (event matches GpioIn::RelayOff { pin } ==> {
                &&& final(self).io@ == spec_relay_set(old(self).io@, pin as int, false)
                &&& spec_same_but_io(*final(self), *old(self))
                &&& (r matches Ok(effs) && effs@ == Seq::<GpioEffect>::empty())
            }),
            (event == GpioIn::ButonBlink ==> {
                &&& *final(self) == *old(self)
                &&& (r matches Ok(effs) && effs@.len() == 1 && (effs@[0] matches
                GpioEffect::StartGesture { led_pins, button_pin, step_ms } && led_pins@ == old(
                    self,
                ).leds@.map_values(|e: LedEntry| e.pin) && button_pin == old(self).button_pin
                    && step_ms == old(self).time_blink))
            }),
            (event == GpioIn::ReturnState ==> {
                &&& *final(self) == *old(self)
                &&& (r matches Ok(effs) && effs@.len() == 1 && (effs@[0] matches
                GpioEffect::RestoreLeds { writes } && writes@ == spec_restore_writes(
                    old(self).leds@,
                )))
            }),
            ((event == GpioIn::FanModeLv1 || event == GpioIn::FanModeLv2 || event
                == GpioIn::FanModeLv3) ==> *final(self) == *old(self) && (r matches Ok(effs)
                && effs@ == Seq::<GpioEffect>::empty())),
    {
        match event {
            GpioIn::LedOn { pin } => {
                if pin < self.leds.len() as u64 {
                    let i = pin as usize;
                    let e = self.leds[i];
                    self.leds.set(i, LedEntry { state: LedState::On, ..e });
                }
                Ok(Vec::new())
            },
            GpioIn::LedOff { pin } => {
                if pin < self.leds.len() as u64 {
                    let i = pin as usize;
                    let e = self.leds[i];
                    self.leds.set(i, LedEntry { state: LedState::Off, ..e });
                }
                Ok(Vec::new())
            },
            GpioIn::LedBlink { pin, blink, time, fre, get_tick } => {
                let effs = self.blink_step(pin, blink, time, fre, get_tick);
                Ok(effs)
            },
            GpioIn::ButonBlink => {
                let mut led_pins: Vec<u64> = Vec::new();
                let mut i: usize = 0;
                while i < self.leds.len()
                    invariant
                        0 <= i <= self.leds@.len(),
                        self == old(self),
                        led_pins@ =~= self.leds@.subrange(0, i as int).map_values(
                            |e: LedEntry| e.pin,
                        ),
                    decreases self.leds@.len() - i,
                {
                    led_pins.push(self.leds[i].pin);
                    proof {
                        assert(self.leds@.subrange(0, i + 1 as int) =~= self.leds@.subrange(
                            0,
                            i as int,
                        ).push(self.leds@[i as int]));
                        assert(led_pins@ =~= self.leds@.subrange(0, i + 1 as int).map_values(
                            |e: LedEntry| e.pin,
                        ));
                    }
                    i += 1;
                }
                proof {
                    assert(self.leds@.subrange(0, self.leds@.len() as int) =~= self.leds@);
                }
                let mut effs: Vec<GpioEffect> = Vec::new();
                effs.push(
                    GpioEffect::StartGesture {
                        led_pins,
                        button_pin: self.button_pin,
                        step_ms: self.time_blink,
                    },
                );
                Ok(effs)
            },
            GpioIn::ReturnState => {
                let mut writes: Vec<(u64, u8)> = Vec::new();
                let mut i: usize = 0;
                while i < self.leds.len()
                    invariant
                        0 <= i <= self.leds@.len(),
                        self == old(self),
                        writes@ == spec_restore_writes(self.leds@.subrange(0, i as int)),
                    decreases self.leds@.len() - i,
                {
                    let e = self.leds[i];
                    match e.state {
                        LedState::Blink => {},
                        LedState::On => {
                            writes.push((e.pin, 0));
                        },
                        LedState::Off => {
                            writes.push((e.pin, 1));
                        },
                    }
                    proof {
                        let q = self.leds@.subrange(0, i + 1 as int);
                        assert(q.drop_last() =~= self.leds@.subrange(0, i as int));
                        assert(q.last() == self.leds@[i as int]);
                    }
                    i += 1;
                }
                proof {
                    assert(self.leds@.subrange(0, self.leds@.len() as int) =~= self.leds@);
                }
                let mut effs: Vec<GpioEffect> = Vec::new();
                effs.push(GpioEffect::RestoreLeds { writes });
                Ok(effs)
            },
            GpioIn::RelayOn { pin } => {
                if pin < self.io.len() as u64 {
                    let i = pin as usize;
                    let e = self.io[i];
                    self.io.set(i, RelayEntry { on: true, ..e });
                }
                Ok(Vec::new())
            },
            GpioIn::RelayOff { pin } => {
                if pin < self.io.len() as u64 {
                    let i = pin as usize;
                    let e = self.io[i];
                    self.io.set(i, RelayEntry { on: false, ..e });
                }
                Ok(Vec::new())
            },
            GpioIn::FanModeLv1 => Ok(Vec::new()),
            GpioIn::FanModeLv2 => Ok(Vec::new()),
            GpioIn::FanModeLv3 => Ok(Vec::new()),
        }
    }

    /// The opening of the walking gesture: every LED line is driven to
    /// the on level, and the walk starts at the first entry.
    pub fn gesture_start(&self) -> (r: (Vec<(u64, u8)>, GesturePhase))
        ensures
            r.0@ == self.leds@.map_values(|e: LedEntry| (e.pin, 1u8)),
            r.1 == (if self.leds@.len() == 0 {
                GesturePhase::PostCheck
            } else {
                GesturePhase::Forward { next: 0 }
            }),
            spec_gesture_phase_ok(self.leds@.len() as int, r.1),
    {
        let mut writes: Vec<(u64, u8)> = Vec::new();
        let mut i: usize = 0;
        while i < self.leds.len()
            invariant
                0 <= i <= self.leds@.len(),
                writes@ =~= self.leds@.subrange(0, i as int).map_values(|e: LedEntry| (e.pin, 1u8)),
            decreases self.leds@.len() - i,
        {
            writes.push((self.leds[i].pin, 1));
            proof {
                assert(self.leds@.subrange(0, i + 1 as int) =~= self.leds@.subrange(0, i as int)
                    .push(self.leds@[i as int]));
                assert(writes@ =~= self.leds@.subrange(0, i + 1 as int).map_values(
                    |e: LedEntry| (e.pin, 1u8),
                ));
            }
            i += 1;
        }
        proof {
            assert(self.leds@.subrange(0, self.leds@.len() as int) =~= self.leds@);
        }
        let phase = if self.leds.len() == 0 {
            GesturePhase::PostCheck
        } else {
            GesturePhase::Forward { next: 0 }
        };
        (writes, phase)
    }

    /// One decision of the walking gesture (see `spec_gesture_step`).
    pub fn gesture_step(&self, phase: GesturePhase, button_value: u8) -> (r: (
        Option<(u64, u8)>,
        GesturePhase,
    ))
        requires
            spec_gesture_phase_ok(self.leds@.len() as int, phase),
        ensures
            r == spec_gesture_step(self.leds@, phase, button_value),
            spec_gesture_phase_ok(self.leds@.len() as int, r.1),
    {
        match phase {
            GesturePhase::Forward { next } => {
                if button_value == 1 {
                    (None, GesturePhase::PostCheck)
                } else {
                    let n = self.leds.len();
                    assert(next < n);
                    let w = Some((self.leds[next].pin, 0u8));
                    if next + 1 == n {
                        (w, GesturePhase::PostCheck)
                    } else {
                        (w, GesturePhase::Forward { next: next + 1 })
                    }
                }
            },
            GesturePhase::PostCheck => {
                if button_value == 0 {
                    if self.leds.len() == 0 {
                        (None, GesturePhase::Done { emit_pressed: true })
                    } else {
                        (None, GesturePhase::Replay { next: 0 })
                    }
                } else {
                    (None, GesturePhase::Done { emit_pressed: false })
                }
            },
            GesturePhase::Replay { next } => {
                if button_value == 1 {
                    (None, GesturePhase::Done { emit_pressed: true })
                } else {
                    let n = self.leds.len();
                    assert(next < n);
                    let w = Some((self.leds[next].pin, 1u8));
                    if next + 1 == n {
                        (w, GesturePhase::Done { emit_pressed: true })
                    } else {
                        (w, GesturePhase::Replay { next: next + 1 })
                    }
                }
            },
            GesturePhase::Done { emit_pressed } => (None, GesturePhase::Done { emit_pressed }),
        }
    }
}

/// Resolves the gesture's selection from the live LED values: the first
/// line at the off level picks the released-selection signal.
pub fn resolve_selection(live: &Vec<u8>) -> (r: GpioOut)
    ensures
        r == spec_release_signal(spec_first_off_from(live@, 0)),
{
    let mut i: usize = 0;
    while i < live.len()
        invariant
            0 <= i <= live@.len(),
            spec_first_off_from(live@, 0) == spec_first_off_from(live@, i as int),
        decreases live@.len() - i,
    {
        if live[i] == 1 {
            return if i == 1 {
                GpioOut::LedTwoReleased
            } else if i == 2 {
                GpioOut::LedThreeReleased
            } else if i == 3 {
                GpioOut::LedFourReleased
            } else if i == 4 {
                GpioOut::LedFiveReleased
            } else {
                GpioOut::Stop
            };
        }
        i += 1;
    }
    GpioOut::Stop
}

impl ButtonDriver {
    /// A fresh monitor; the stored value starts at 1 (released).
    pub fn new(button_pin: u64) -> (r: ButtonDriver)
        ensures
            r == (ButtonDriver { button_pin, last_value: 1 }),
    {
        ButtonDriver { button_pin, last_value: 1 }
    }

    /// Feeds one debounced poll: exactly one transition event is emitted
    /// when the value changed (0 reads as pressed, anything else as
    /// released), none when it repeats.
    pub fn button_handle(&mut self, value: u8) -> (r: Option<GpioOut>)
        ensures
            final(self).last_value == spec_button_step(old(self).last_value, value).0,
            final(self).button_pin == old(self).button_pin,
            (r is Some) == spec_button_step(old(self).last_value, value).1,
            value == old(self).last_value ==> *final(self) == *old(self) && r is None,
            value != old(self).last_value ==> *final(self) == (ButtonDriver {
                last_value: value,
                ..*old(self)
            }) && r == Some(
                if value == 0 {
                    GpioOut::ButtonPressed
                } else {
                    GpioOut::ButtonReleased
                },
            ),
    {
        if value != self.last_value {
            self.last_value = value;
            if value == 0 {
                Some(GpioOut::ButtonPressed)
            } else {
                Some(GpioOut::ButtonReleased)
            }
        } else {
            None
        }
    }
}

/// One debounced poll: the stored value afterwards, and whether a
/// transition event is emitted.
pub open spec fn spec_button_step(last: u8, value: u8) -> (u8, bool) {
    (value, value != last)
}

/// The number of transition events a run of polls produces, starting
/// from a stored value: one for each poll that differs from the value
/// stored just before it.
pub open spec fn spec_button_transitions(last: u8, polls: Seq<u8>) -> int
    decreases polls.len(),
{
    if polls.len() == 0 {
        0
    } else {
        let (stored, emitted) = spec_button_step(last, polls[0]);
        let rest = spec_button_transitions(stored, polls.subrange(1, polls.len() as int));
        if emitted {
            rest + 1
        } else {
            rest
        }
    }
}

/// A run of polls that never changes value emits no transition events.
pub proof fn lemma_button_no_change_no_events(last: u8, polls: Seq<u8>)
    requires
        forall|i: int| 0 <= i < polls.len() ==> polls[i] == last,
    ensures
        spec_button_transitions(last, polls) == 0,
    decreases polls.len(),
{
    if polls.len() > 0 {
        assert(polls[0] == last);
        let rest = polls.subrange(1, polls.len() as int);
        assert forall|i: int| 0 <= i < rest.len() implies rest[i] == last by {
            assert(rest[i] == polls[i + 1]);
        }
        lemma_button_no_change_no_events(last, rest);
    }
}

/// Only the first of two identical blink-start commands is admitted: the
/// repeat is rejected and leaves the bank unchanged, until a command
/// with a different period changes the session token again.
pub proof fn lemma_duplicate_session_rejected(leds: Seq<LedEntry>, pin: int, fre: u16, fre2: u16)
    requires
        0 <= pin < leds.len(),
        fre2 != fre,
    ensures
        ({
            let (l1, a1) = spec_blink_admit(leds, pin, fre);
            let (l2, a2) = spec_blink_admit(l1, pin, fre);
            &&& a2 == false
            &&& l2 == l1
            &&& spec_blink_admit(l1, pin, fre2).1 == true
        }),
{
}

/// While warming (each reading above the previous), the fan level is
/// monotone in the reading: a hotter reading never yields a lower level.
pub proof fn lemma_fan_warming_monotone(last1: int, t1: int, last2: int, t2: int)
    requires
        last1 < t1,
        last2 < t2,
        t1 <= t2,
    ensures
        spec_fan_level(last1, t1) <= spec_fan_level(last2, t2),
{
}

/// While cooling (each reading below the previous), the fan level is
/// monotone the other way: a colder reading never yields a higher level.
pub proof fn lemma_fan_cooling_monotone(last1: int, t1: int, last2: int, t2: int)
    requires
        last1 > t1,
        last2 > t2,
        t1 >= t2,
    ensures
        spec_fan_level(last1, t1) >= spec_fan_level(last2, t2),
{
}

/// An unchanged reading is a no-op: no fan command is emitted.
pub proof fn lemma_fan_unchanged_no_action(t: int)
    ensures
        spec_fan_action(t, t) is None,
{
}

/// A run of blink steps: each step consumes one tick of `ticks`; the
/// run stops early when a step decides not to reschedule.  Returns the
/// final entry, the number of pin toggles performed, and whether the
/// session was still running when the ticks ran out.
pub open spec fn spec_blink_session(
    e: LedEntry,
    blink: bool,
    time: u16,
    fre: u16,
    ticks: Seq<u64>,
) -> (LedEntry, int, bool)
    decreases ticks.len(),
{
    if ticks.len() == 0 {
        (e, 0, true)
    } else {
        let (e1, toggled, resched) = spec_blink_step(e, blink, time, fre, ticks[0]);
        let t0: int = if toggled {
            1
        } else {
            0
        };
        if !resched {
            (e1, t0, false)
        } else {
            let (ef, n, running) = spec_blink_session(
                e1,
                blink,
                time,
                fre,
                ticks.subrange(1, ticks.len() as int),
            );
            (ef, n + t0, running)
        }
    }
}

/// A finite blink session performs exactly its toggle budget and then
/// stops with the count reset: from a running session that still owes
/// `time - toggle_count` toggles, a run of that many due ticks (each at
/// least a period after the previous toggle) toggles on every step,
/// then terminates with the count back at 0.
pub proof fn lemma_blink_session_budget(e: LedEntry, time: u16, fre: u16, ticks: Seq<u64>)
    requires
        1 <= time <= 255,
        e.toggle_count == 0 || e.state is Blink,
        e.toggle_count < time,
        ticks.len() == time - e.toggle_count,
        ticks.len() > 0 ==> ticks[0] - e.last_toggle_tick >= fre / 100,
        forall|k: int| 1 <= k < ticks.len() ==> #[trigger] ticks[k] - ticks[k - 1] >= fre / 100,
    ensures
        ({
            let (ef, n, running) = spec_blink_session(e, false, time, fre, ticks);
            &&& n == time - e.toggle_count
            &&& !running
            &&& ef.toggle_count == 0
        }),
    decreases ticks.len(),
{
    let (e1, toggled, resched) = spec_blink_step(e, false, time, fre, ticks[0]);
    assert(toggled);
    if e.toggle_count + 1 == time {
        assert(!resched);
    } else {
        assert(resched);
        assert(e1.toggle_count == e.toggle_count + 1);
        assert(e1.last_toggle_tick == ticks[0]);
        let rest = ticks.subrange(1, ticks.len() as int);
        assert forall|k: int| 1 <= k < rest.len() implies #[trigger] rest[k] - rest[k - 1] >= fre / 100 by {
            assert(rest[k] == ticks[k + 1]);
            assert(rest[k - 1] == ticks[k]);
        }
        assert(rest.len() > 0 ==> rest[0] - e1.last_toggle_tick >= fre / 100) by {
            if rest.len() > 0 {
                assert(rest[0] == ticks[1]);
            }
        }
        lemma_blink_session_budget(e1, time, fre, rest);
    }
}

/// A blink session started fresh (`toggle_count == 0`) with a finite
/// toggle budget `time` performs exactly `time` toggles and returns to
/// a stopped state with the count reset to 0.
pub proof fn lemma_blink_finite_session(e: LedEntry, time: u16, fre: u16, ticks: Seq<u64>)
    requires
        1 <= time <= 255,
        e.toggle_count == 0,
        ticks.len() == time,
        ticks[0] - e.last_toggle_tick >= fre / 100,
        forall|k: int| 1 <= k < ticks.len() ==> #[trigger] ticks[k] - ticks[k - 1] >= fre / 100,
    ensures
        ({
            let (ef, n, running) = spec_blink_session(e, false, time, fre, ticks);
            &&& n == time
            &&& !running
            &&& ef.toggle_count == 0
        }),
{
    lemma_blink_session_budget(e, time, fre, ticks);
}

/// Whether `c` is one of the blank characters trimmed from the
/// temperature file's text.
pub open spec fn spec_is_ws(c: char) -> bool {
    9 <= c as int <= 13 || c as int == 32
}

/// The first index at or after `i` holding a non-blank character, or
/// the length when there is none.
pub open spec fn spec_skip_ws_from(s: Seq<char>, i: int) -> int
    decreases s.len() - i,
{
    if !(0 <= i < s.len()) {
        i
    } else if spec_is_ws(s[i]) {
        spec_skip_ws_from(s, i + 1)
    } else {
        i
    }
}

/// The end (exclusive) of the last non-blank character before `i`, or
/// 0 when there is none.
pub open spec fn spec_rskip_ws(s: Seq<char>, i: int) -> int
    decreases i,
{
    if i <= 0 || i > s.len() {
        if i <= 0 {
            0
        } else {
            i
        }
    } else if spec_is_ws(s[i - 1]) {
        spec_rskip_ws(s, i - 1)
    } else {
        i
    }
}

pub proof fn lemma_rskip_ws_le(s: Seq<char>, i: int)
    requires
        0 <= i <= s.len(),
    ensures
        0 <= spec_rskip_ws(s, i) <= i,
    decreases i,
{
    if i > 0 && spec_is_ws(s[i - 1]) {
        lemma_rskip_ws_le(s, i - 1);
    }
}

/// The temperature file's text with blanks trimmed from both ends.
pub open spec fn spec_trimmed(s: Seq<char>) -> Seq<char> {
    let lo = spec_skip_ws_from(s, 0);
    let hi = spec_rskip_ws(s, s.len() as int);
    if lo < hi {
        s.subrange(lo, hi)
    } else {
        Seq::empty()
    }
}

/// The temperature reading in `s`: the decimal number left after
/// trimming blanks, when there is one and it fits a `u32`.
pub open spec fn spec_parse_temp(s: Seq<char>) -> Option<u32> {
    let t = spec_trimmed(s);
    if t.len() > 0 && spec_all_digits(t) && spec_digits_val(t) <= u32::MAX {
        Some(spec_digits_val(t) as u32)
    } else {
        None
    }
}

/// Whether `c` is trimmed as a blank.
pub fn is_ws_char(c: char) -> (b: bool)
    ensures
        b == spec_is_ws(c),
{
    let v = c as u32;
    (9 <= v && v <= 13) || v == 32
}

/// Decodes the temperature file's text: blanks are trimmed from both
/// ends and the rest is read as a decimal number of degrees.  Every
/// failure (nothing left, a stray character, a value out of range) is
/// the decode error.
pub fn parse_temperature(s: &str) -> (r: Result<u32, OtaErr>)
    ensures
        r matches Ok(v) ==> spec_parse_temp(s@) == Some(v),
        r is Err ==> spec_parse_temp(s@) is None && r == Err::<u32, OtaErr>(
            OtaErr::ConvertTempErr,
        ),
{
    let n = s.unicode_len();
    let mut lo: usize = 0;
    while lo < n && is_ws_char(s.get_char(lo))
        invariant
            0 <= lo <= n,
            n == s@.len(),
            spec_skip_ws_from(s@, 0) == spec_skip_ws_from(s@, lo as int),
        decreases n - lo,
    {
        lo += 1;
    }
    assert(spec_skip_ws_from(s@, 0) == lo as int);
    let mut hi: usize = n;
    while hi > lo && is_ws_char(s.get_char(hi - 1))
        invariant
            lo <= hi <= n,
            n == s@.len(),
            spec_skip_ws_from(s@, 0) == lo as int,
            lo < n ==> !spec_is_ws(s@[lo as int]),
            spec_rskip_ws(s@, n as int) == spec_rskip_ws(s@, hi as int),
        decreases hi,
    {
        hi -= 1;
    }
    if lo >= hi {
        proof {
            lemma_rskip_ws_le(s@, hi as int);
        }
        return Err(OtaErr::ConvertTempErr);
    }
    assert(spec_rskip_ws(s@, s@.len() as int) == hi as int);
    let t = s.substring_char(lo, hi);
    assert(t@ == spec_trimmed(s@));
    match parse_u32_digits(t) {
        Some(v) => Ok(v),
        None => Err(OtaErr::ConvertTempErr),
    }
}

} // verus!
