//! The alarm clock's behaviour: what the button and alarm interrupts decide,
//! and the alarm programs they run on the real-time clock.
//!
//! An interrupt handler is a step function from the current mode and what the
//! button reported to the next mode and the actions to perform. The actions
//! are carried out by the caller, which also reads the button.
use vstd::prelude::*;
use crate::registers::{
    lemma_register_after_concat, lemma_register_after_last_touch, lemma_register_after_untouched,
    register_after, setting, touches, RegOp, Register, Update, CR_ALRAE, CR_ALRAIE, PWR_CR_CWUF,
    PWR_CR_PDDS, TIME_FIELDS,
};
use crate::rtc::{
    alarm_flag_clear_update, alarm_program, alarm_toggle_update, alarm_update,
    clear_pending_program, lemma_alarm_program_arms_alarm, lemma_alarm_register_holds_time,
    lemma_alarm_toggle, lemma_time_program_writes_bcd_digits, lemma_time_register_round_trip,
    time_of_register, time_program, time_update, RTC,
};
use crate::time::Time;

verus! {

/// The number of alarm presets: a preset `n` rings `10 * n` seconds after it is armed.
pub const PRESET_COUNT: u8 = 3;

/// What the alarm clock is doing.
#[derive(Clone, Copy, Debug, PartialEq, Eq, Structural)]
pub enum Mode {
    /// The alarm is armed.
    Alarm,
    /// Nothing is armed.
    Sleep,
    /// The user is choosing a preset.
    Setup(u8),
}

/// How the button was pressed.
#[derive(Clone, Copy, Debug, PartialEq, Eq, Structural)]
pub enum PressType {
    Short,
    Long,
    /// The interrupt fired but no press was recognised.
    NoPress,
}

/// Something the interrupt handler asks the caller to do.
#[derive(Clone, Copy, Debug, PartialEq, Eq, Structural)]
pub enum Action {
    /// Beep this many times.
    Beep(u8),
    /// Play the tune that announces setup mode.
    PlaySetup,
    /// Play the tune that announces the reset to sleep.
    PlayReset,
    /// Play the alarm melody.
    PlayMelody,
    /// Run `reset_alarm` on the real-time clock.
    ResetAlarm,
    /// Run `set_alarm` with this many seconds on the real-time clock.
    SetAlarm(u8),
    /// Mark the button interrupt as handled.
    ClearButtonInterrupt,
    /// Clear the standby wake-up flag.
    ClearWakeupFlag,
}

/// The outcome of a step of the button handler.
pub struct HandlerStep {
    /// The mode after the step.
    pub mode: Mode,
    /// The actions to perform, in order.
    pub actions: Vec<Action>,
    /// Whether the handler waits for a second press (to be handed to
    /// `button_confirm` once the actions are done).
    pub awaiting_confirmation: bool,
}

/// A mode that the handlers can reach: a setup preset never exceeds `PRESET_COUNT`.
pub open spec fn mode_well_formed(mode: Mode) -> bool {
    mode matches Mode::Setup(s) ==> s <= PRESET_COUNT
}

/// The preset that a short press selects after preset `s`: the next one, and
/// the first again after the last.
pub open spec fn next_preset(s: u8) -> u8 {
    if s == PRESET_COUNT {
        1
    } else {
        (s + 1) as u8
    }
}

/// The actions that end every handled button interrupt.
pub open spec fn acknowledgement() -> Seq<Action> {
    seq![Action::ClearButtonInterrupt, Action::ClearWakeupFlag]
}

/// The mode after a first press.
pub open spec fn mode_after_press(mode: Mode, press: PressType) -> Mode {
    match (press, mode) {
        (PressType::Short, Mode::Setup(s)) => Mode::Setup(next_preset(s)),
        _ => mode,
    }
}

/// The actions after a first press: a short press in setup beeps the new
/// preset; a long press resets the alarm and announces setup, then waits for
/// a second press.
pub open spec fn actions_after_press(mode: Mode, press: PressType) -> Seq<Action> {
    match (press, mode) {
        (PressType::Short, Mode::Setup(s)) => seq![Action::Beep(next_preset(s))]
            + acknowledgement(),
        (PressType::Long, _) => seq![Action::ResetAlarm, Action::PlaySetup],
        _ => acknowledgement(),
    }
}

/// The mode after the second press of a long-press sequence: another long
/// press goes to sleep; otherwise a chosen preset arms the alarm, and outside
/// setup, setup starts at preset 0.
pub open spec fn mode_after_confirm(mode: Mode, press: PressType) -> Mode {
    if press == PressType::Long {
        Mode::Sleep
    } else {
        match mode {
            Mode::Setup(_) => Mode::Alarm,
            _ => Mode::Setup(0),
        }
    }
}

/// The actions after the second press of a long-press sequence.
pub open spec fn actions_after_confirm(mode: Mode, press: PressType) -> Seq<Action> {
    if press == PressType::Long {
        seq![Action::PlayReset] + acknowledgement()
    } else {
        match mode {
            Mode::Setup(s) => seq![Action::SetAlarm((s * 10) as u8)] + acknowledgement(),
            _ => acknowledgement(),
        }
    }
}

/// The first step of the button interrupt, given how the button was pressed.
pub fn button_handler(mode: Mode, press: PressType) -> (step: HandlerStep)
    requires
        !(press == PressType::Short && mode == Mode::Setup(255)),
    ensures
        step.mode == mode_after_press(mode, press),
        step.actions@ == actions_after_press(mode, press),
        step.awaiting_confirmation == (press == PressType::Long),
{
    let mut actions = Vec::new();
    match press {
        PressType::Short => {
            let mut num_sec: u8 = 0;
            if let Mode::Setup(s) = mode {
                num_sec = if s == PRESET_COUNT {
                    1
                } else {
                    s + 1
                };
                actions.push(Action::Beep(num_sec));
            }
            let mut next = mode;
            if num_sec != 0 {
                next = Mode::Setup(num_sec);
            }
            actions.push(Action::ClearButtonInterrupt);
            actions.push(Action::ClearWakeupFlag);
            assert(actions@ =~= actions_after_press(mode, press));
            HandlerStep { mode: next, actions, awaiting_confirmation: false }
        },
        PressType::Long => {
            actions.push(Action::ResetAlarm);
            actions.push(Action::PlaySetup);
            assert(actions@ =~= actions_after_press(mode, press));
            HandlerStep { mode, actions, awaiting_confirmation: true }
        },
        PressType::NoPress => {
            actions.push(Action::ClearButtonInterrupt);
            actions.push(Action::ClearWakeupFlag);
            assert(actions@ =~= actions_after_press(mode, press));
            HandlerStep { mode, actions, awaiting_confirmation: false }
        },
    }
}

/// The second step of the button interrupt after a long press, given how the
/// button was pressed the second time.
pub fn button_confirm(mode: Mode, press: PressType) -> (step: HandlerStep)
    requires
        press != PressType::Long ==> (mode matches Mode::Setup(s) ==> s * 10 <= u8::MAX),
    ensures
        step.mode == mode_after_confirm(mode, press),
        step.actions@ == actions_after_confirm(mode, press),
        !step.awaiting_confirmation,
{
    let mut actions = Vec::new();
    let next = match press {
        PressType::Long => {
            actions.push(Action::PlayReset);
            Mode::Sleep
        },
        _ => {
            if let Mode::Setup(s) = mode {
                actions.push(Action::SetAlarm(s * 10));
                Mode::Alarm
            } else {
                Mode::Setup(0)
            }
        },
    };
    actions.push(Action::ClearButtonInterrupt);
    actions.push(Action::ClearWakeupFlag);
    assert(actions@ =~= actions_after_confirm(mode, press));
    HandlerStep { mode: next, actions, awaiting_confirmation: false }
}

/// The alarm interrupt: ring, then arm the alarm again to ring in ten
/// seconds, until the button resets it. The mode is left as it is.
pub fn on_alarm() -> (actions: Vec<Action>)
    ensures
        actions@ == seq![
            Action::PlayMelody,
            Action::ResetAlarm,
            Action::SetAlarm(10),
            Action::ClearWakeupFlag,
        ],
{
    let mut actions = Vec::new();
    actions.push(Action::PlayMelody);
    actions.push(Action::ResetAlarm);
    actions.push(Action::SetAlarm(10));
    actions.push(Action::ClearWakeupFlag);
    actions
}

/// Midnight, the time that `reset_alarm` gives both the clock and the alarm.
pub open spec fn reset_time() -> Time {
    Time { hours: 0, minutes: 0, seconds: 0 }
}

/// The clock time that `set_alarm` starts from.
pub open spec fn armed_clock_time() -> Time {
    Time { hours: 1, minutes: 0, seconds: 0 }
}

/// The alarm time that `set_alarm` sets for `num_secs`.
pub open spec fn armed_alarm_time(num_secs: u8) -> Time {
    Time { hours: 1, minutes: 0, seconds: num_secs }
}

/// Sets the clock and the alarm to midnight, then switches the alarm off and
/// clears any pending alarm.
pub open spec fn reset_alarm_program() -> Seq<RegOp> {
    time_program(reset_time()) + alarm_program(reset_time()) + seq![
        RegOp::Modify(Register::RtcCr, alarm_toggle_update(false)),
    ] + clear_pending_program()
}

/// Sets the clock to 1:00:00 and the alarm to 1:00:`num_secs`.
pub open spec fn set_alarm_program(num_secs: u8) -> Seq<RegOp> {
    time_program(armed_clock_time()) + alarm_program(armed_alarm_time(num_secs))
}

/// The register program that disarms the alarm.
pub fn reset_alarm(rtc: &RTC) -> (ops: Vec<RegOp>)
    ensures
        ops@ == reset_alarm_program(),
{
    let reset_time = Time { hours: 0, minutes: 0, seconds: 0 };
    let mut ops = rtc.configure_time(&reset_time);
    let mut alarm = rtc.configure_alarm(&reset_time);
    ops.append(&mut alarm);
    ops.push(rtc.toggle_alarm(false));
    let mut pending = rtc.clear_pending_interrupt();
    ops.append(&mut pending);
    assert(ops@ =~= reset_alarm_program());
    ops
}

/// The register program that arms the alarm to ring `num_secs` seconds from now.
pub fn set_alarm(rtc: &RTC, num_secs: &u8) -> (ops: Vec<RegOp>)
    ensures
        ops@ == set_alarm_program(*num_secs),
{
    let mut ops = rtc.configure_time(&Time { hours: 1, minutes: 0, seconds: 0 });
    let mut alarm = rtc.configure_alarm(&Time { hours: 1, minutes: 0, seconds: *num_secs });
    ops.append(&mut alarm);
    ops
}

/// Selects standby as the deep-sleep mode, clears the wake-up flag and makes
/// the next wait-for-interrupt enter deep sleep.
pub fn configure_standby_mode() -> (ops: Vec<RegOp>)
    ensures
        ops@ == seq![
            RegOp::Modify(Register::PwrCr, setting(PWR_CR_PDDS)),
            RegOp::Modify(Register::PwrCr, setting(PWR_CR_CWUF)),
            RegOp::SetSleepDeep,
        ],
{
    let mut ops = Vec::new();
    ops.push(RegOp::Modify(Register::PwrCr, Update { clear: PWR_CR_PDDS, set: PWR_CR_PDDS }));
    ops.push(RegOp::Modify(Register::PwrCr, Update { clear: PWR_CR_CWUF, set: PWR_CR_CWUF }));
    ops.push(RegOp::SetSleepDeep);
    ops
}

/// The register operation behind `Action::ClearWakeupFlag`.
pub fn clear_wakeup_flag() -> (op: RegOp)
    ensures
        op == RegOp::Modify(Register::PwrCr, setting(PWR_CR_CWUF)),
{
    RegOp::Modify(Register::PwrCr, Update { clear: PWR_CR_CWUF, set: PWR_CR_CWUF })
}

/// The handlers never leave the reachable modes: from a well-formed mode every
/// press is accepted (no preset arithmetic overflows) and the next mode is
/// well-formed again, after the first press and after the second.
pub proof fn lemma_handlers_keep_mode_well_formed(mode: Mode, press: PressType)
    requires
        mode_well_formed(mode),
    ensures
        !(press == PressType::Short && mode == Mode::Setup(255)),
        press != PressType::Long ==> (mode matches Mode::Setup(s) ==> s * 10 <= u8::MAX),
        mode_well_formed(mode_after_press(mode, press)),
        mode_well_formed(mode_after_confirm(mode, press)),
{
}

/// Short presses in setup step through the presets 1, 2, ..., `PRESET_COUNT`
/// and back to 1, so that `PRESET_COUNT` short presses return to the preset
/// they started from; outside setup a short press changes nothing.
pub proof fn lemma_short_presses_cycle_presets(mode: Mode)
    ensures
        mode matches Mode::Setup(s) ==> (s < PRESET_COUNT ==> mode_after_press(mode, PressType::Short)
            == Mode::Setup((s + 1) as u8)),
        mode == Mode::Setup(PRESET_COUNT) ==> mode_after_press(mode, PressType::Short) == Mode::Setup(
            1,
        ),
        (mode matches Mode::Setup(s) && 1 <= s <= PRESET_COUNT) ==> mode_after_press(
            mode_after_press(mode_after_press(mode, PressType::Short), PressType::Short),
            PressType::Short,
        ) == mode,
        !(mode is Setup) ==> mode_after_press(mode, PressType::Short) == mode,
{
}

/// Every button interrupt ends by marking the interrupt handled and clearing
/// the wake-up flag; the only step that does not end so is a long press, which
/// first disarms the alarm and announces setup, keeps the mode, and waits for
/// the second press.
pub proof fn lemma_button_interrupt_is_acknowledged(mode: Mode, press: PressType)
    ensures
        press != PressType::Long ==> actions_after_press(mode, press).len() >= 2
            && actions_after_press(mode, press).subrange(
            actions_after_press(mode, press).len() - 2,
            actions_after_press(mode, press).len() as int,
        ) == acknowledgement(),
        press == PressType::Long ==> actions_after_press(mode, press) == seq![
            Action::ResetAlarm,
            Action::PlaySetup,
        ] && mode_after_press(mode, press) == mode,
        actions_after_confirm(mode, press).len() >= 2 && actions_after_confirm(mode, press).subrange(
            actions_after_confirm(mode, press).len() - 2,
            actions_after_confirm(mode, press).len() as int,
        ) == acknowledgement(),
{
    let a = actions_after_press(mode, press);
    let c = actions_after_confirm(mode, press);
    if press != PressType::Long {
        assert(a.subrange(a.len() - 2, a.len() as int) =~= acknowledgement());
    }
    assert(c.subrange(c.len() - 2, c.len() as int) =~= acknowledgement());
}

/// Holding the button a second time always resets to sleep; otherwise a
/// chosen preset `s` arms the alarm for `10 * s` seconds, and from any other
/// mode setup starts at preset 0.
pub proof fn lemma_second_press_decides(mode: Mode, press: PressType)
    ensures
        press == PressType::Long ==> mode_after_confirm(mode, press) == Mode::Sleep
            && actions_after_confirm(mode, press)[0] == Action::PlayReset,
        press != PressType::Long ==> (mode matches Mode::Setup(s) ==> mode_after_confirm(mode, press)
            == Mode::Alarm && actions_after_confirm(mode, press)[0] == Action::SetAlarm(
            (s * 10) as u8,
        )),
        press != PressType::Long && !(mode is Setup) ==> mode_after_confirm(mode, press)
            == Mode::Setup(0) && actions_after_confirm(mode, press) == acknowledgement(),
{
}

/// Arming the alarm for `num_secs` (under a minute) sets the time register to
/// 1:00:00 and alarm A to 1:00:`num_secs`, seconds compared only: the alarm
/// rings `num_secs` seconds after it is armed, whatever the registers held.
pub proof fn lemma_set_alarm_rings_after(num_secs: u8)
    requires
        num_secs < 60,
    ensures
        set_alarm_program(num_secs)[6] == RegOp::Modify(Register::RtcTr, time_update(armed_clock_time())),
        set_alarm_program(num_secs)[14] == RegOp::Modify(
            Register::RtcAlrmar,
            alarm_update(armed_alarm_time(num_secs)),
        ),
        forall|old: u32|
            time_of_register(#[trigger] time_update(armed_clock_time()).applied_to(old))
                == armed_clock_time(),
        forall|old: u32|
            time_of_register(#[trigger] alarm_update(armed_alarm_time(num_secs)).applied_to(old))
                == armed_alarm_time(num_secs),
        armed_alarm_time(num_secs).seconds_of_day() - armed_clock_time().seconds_of_day() == num_secs,
{
    assert forall|old: u32|
        time_of_register(#[trigger] time_update(armed_clock_time()).applied_to(old))
            == armed_clock_time() by {
        lemma_time_register_round_trip(armed_clock_time(), old);
    }
    assert forall|old: u32|
        time_of_register(#[trigger] alarm_update(armed_alarm_time(num_secs)).applied_to(old))
            == armed_alarm_time(num_secs) by {
        lemma_alarm_register_holds_time(armed_alarm_time(num_secs), old);
    }
}

/// Disarming leaves the alarm off: after clock and alarm are set to midnight,
/// the alarm and its interrupt are switched off, the alarm flag and the pending
/// EXTI line are cleared, and nothing after that switches the alarm on again.
pub proof fn lemma_reset_alarm_disarms()
    ensures
        reset_alarm_program().len() == 21,
        reset_alarm_program()[6] == RegOp::Modify(Register::RtcTr, time_update(reset_time())),
        reset_alarm_program()[14] == RegOp::Modify(Register::RtcAlrmar, alarm_update(reset_time())),
        reset_alarm_program()[18] == RegOp::Modify(Register::RtcCr, alarm_toggle_update(false)),
        reset_alarm_program()[19] == RegOp::Modify(Register::RtcIsr, alarm_flag_clear_update()),
        forall|i: int|
            18 < i < 21 ==> !(#[trigger] reset_alarm_program()[i] matches RegOp::Modify(
                Register::RtcCr,
                _,
            )),
{
}

/// A short press in setup selects the next preset (the first after the last)
/// and beeps exactly as many times as the number of the preset it selected,
/// before the acknowledgement.
pub proof fn lemma_short_press_beeps_selected_preset(s: u8)
    requires
        s != u8::MAX,
    ensures
        mode_after_press(Mode::Setup(s), PressType::Short) == Mode::Setup(
            if s == PRESET_COUNT {
                1u8
            } else {
                (s + 1) as u8
            },
        ),
        mode_after_press(Mode::Setup(s), PressType::Short) matches Mode::Setup(n)
            && actions_after_press(Mode::Setup(s), PressType::Short) == seq![
            Action::Beep(n),
            Action::ClearButtonInterrupt,
            Action::ClearWakeupFlag,
        ],
{
    assert(actions_after_press(Mode::Setup(s), PressType::Short) =~= seq![
        Action::Beep(next_preset(s)),
        Action::ClearButtonInterrupt,
        Action::ClearWakeupFlag,
    ]);
}

/// Releasing the button after a long press in setup confirms preset `s`: the
/// alarm is armed for `10 * s` seconds, the mode becomes `Alarm`, and nothing
/// but the acknowledgement follows, so nothing disarms it again.
pub proof fn lemma_confirm_arms_preset_only(s: u8, press: PressType)
    requires
        press != PressType::Long,
        s * 10 <= u8::MAX,
    ensures
        mode_after_confirm(Mode::Setup(s), press) == Mode::Alarm,
        actions_after_confirm(Mode::Setup(s), press) == seq![
            Action::SetAlarm((s * 10) as u8),
            Action::ClearButtonInterrupt,
            Action::ClearWakeupFlag,
        ],
        forall|i: int|
            0 <= i < actions_after_confirm(Mode::Setup(s), press).len() ==> #[trigger] actions_after_confirm(
                Mode::Setup(s),
                press,
            )[i] != Action::ResetAlarm,
{
    let a = actions_after_confirm(Mode::Setup(s), press);
    assert(a =~= seq![
        Action::SetAlarm((s * 10) as u8),
        Action::ClearButtonInterrupt,
        Action::ClearWakeupFlag,
    ]);
}

/// Arming the alarm for `num_secs` leaves alarm A and its interrupt enabled,
/// whatever the control register held, the clock at 1:00:00 in BCD, and, for
/// less than a minute, alarm A at 1:00:`num_secs` in BCD.
pub proof fn lemma_set_alarm_program_arms_rtc(num_secs: u8, cr: u32, tr: u32, alrmar: u32)
    ensures
        register_after(set_alarm_program(num_secs), Register::RtcCr, cr) & (CR_ALRAIE | CR_ALRAE)
            == (CR_ALRAIE | CR_ALRAE),
        register_after(set_alarm_program(num_secs), Register::RtcTr, tr) & TIME_FIELDS == 0x0001_0000,
        num_secs < 60 ==> register_after(set_alarm_program(num_secs), Register::RtcAlrmar, alrmar)
            & TIME_FIELDS == 0x0001_0000u32 | (((num_secs / 10) as u32) << 4u32) | ((num_secs
            % 10) as u32),
{
    let tp = time_program(armed_clock_time());
    let ap = alarm_program(armed_alarm_time(num_secs));
    assert(set_alarm_program(num_secs) == tp + ap);
    // The control register: the alarm program ends by enabling the alarm.
    lemma_register_after_concat(tp, ap, Register::RtcCr, cr);
    lemma_alarm_program_arms_alarm(
        armed_alarm_time(num_secs),
        register_after(tp, Register::RtcCr, cr),
        0,
    );
    // The time register: set by the time program, untouched by the alarm program.
    lemma_register_after_concat(tp, ap, Register::RtcTr, tr);
    assert forall|i: int| 0 <= i < ap.len() implies !touches(#[trigger] ap[i], Register::RtcTr) by {
        if i == 0 {
        } else if i == 1 {
        } else if i == 2 {
        } else if i == 3 {
        } else if i == 4 {
        } else if i == 5 {
        } else if i == 6 {
        } else {
        }
    }
    let v = register_after(tp, Register::RtcTr, tr);
    lemma_register_after_untouched(ap, Register::RtcTr, v);
    lemma_time_program_writes_bcd_digits(armed_clock_time(), tr);
    assert(v & 0x003F_7F7Fu32 == 0x0001_0000u32) by (bit_vector)
        requires
            (v >> 20) & 3 == 0,
            (v >> 16) & 0xF == 1,
            (v >> 12) & 7 == 0,
            (v >> 8) & 0xF == 0,
            (v >> 4) & 7 == 0,
            v & 0xF == 0,
    ;
    // Alarm A: untouched by the time program, set by the alarm program.
    if num_secs < 60 {
        lemma_register_after_concat(tp, ap, Register::RtcAlrmar, alrmar);
        assert forall|i: int| 0 <= i < tp.len() implies !touches(
            #[trigger] tp[i],
            Register::RtcAlrmar,
        ) by {
            if i == 0 {
            } else if i == 1 {
            } else if i == 2 {
            } else if i == 3 {
            } else if i == 4 {
            } else if i == 5 {
            } else if i == 6 {
            } else if i == 7 {
            } else if i == 8 {
            } else {
            }
        }
        lemma_register_after_untouched(tp, Register::RtcAlrmar, alrmar);
        lemma_alarm_program_arms_alarm(armed_alarm_time(num_secs), 0, alrmar);
        let a = register_after(ap, Register::RtcAlrmar, alrmar);
        let e = (num_secs / 10) as u32;
        let f = (num_secs % 10) as u32;
        assert(a & 0x003F_7F7Fu32 == 0x0001_0000u32 | (e << 4u32) | f) by (bit_vector)
            requires
                e < 6,
                f < 10,
                (a >> 20) & 3 == 0,
                (a >> 16) & 0xF == 1,
                (a >> 12) & 7 == 0,
                (a >> 8) & 0xF == 0,
                (a >> 4) & 7 == e,
                a & 0xF == f,
        ;
    }
}

/// Disarming leaves alarm A and its interrupt switched off, whatever the
/// control register held.
pub proof fn lemma_reset_alarm_program_leaves_alarm_off(cr: u32)
    ensures
        register_after(reset_alarm_program(), Register::RtcCr, cr) & (CR_ALRAIE | CR_ALRAE) == 0,
{
    let p = reset_alarm_program();
    assert forall|i: int| 18 < i < p.len() implies !touches(#[trigger] p[i], Register::RtcCr) by {
        if i == 19 {
        } else {
        }
    }
    lemma_register_after_last_touch(p, Register::RtcCr, cr, 18);
    lemma_alarm_toggle(false, register_after(p.subrange(0, 18), Register::RtcCr, cr));
}

} // verus!
