use stm32_f0_rust::handlers::{
    button_confirm, button_handler, clear_wakeup_flag, configure_standby_mode, on_alarm,
    reset_alarm, set_alarm, Action, Mode, PressType, PRESET_COUNT,
};
use stm32_f0_rust::registers::{RegOp, Register, Update};
use stm32_f0_rust::rtc::RTC;
use stm32_f0_rust::time::Time;

fn t(hours: u8, minutes: u8, seconds: u8) -> Time {
    Time { hours, minutes, seconds }
}

#[test]
fn short_press_in_setup_beeps_next_preset() {
    let step = button_handler(Mode::Setup(1), PressType::Short);
    assert_eq!(step.mode, Mode::Setup(2));
    assert_eq!(
        step.actions,
        vec![Action::Beep(2), Action::ClearButtonInterrupt, Action::ClearWakeupFlag]
    );
    assert!(!step.awaiting_confirmation);
}

#[test]
fn short_press_after_last_preset_returns_to_first() {
    let step = button_handler(Mode::Setup(PRESET_COUNT), PressType::Short);
    assert_eq!(step.mode, Mode::Setup(1));
    assert_eq!(step.actions[0], Action::Beep(1));
}

#[test]
fn short_presses_cycle_presets() {
    let mut mode = Mode::Setup(2);
    for _ in 0..PRESET_COUNT {
        mode = button_handler(mode, PressType::Short).mode;
    }
    assert_eq!(mode, Mode::Setup(2));
}

#[test]
fn short_press_from_preset_zero_selects_one() {
    let step = button_handler(Mode::Setup(0), PressType::Short);
    assert_eq!(step.mode, Mode::Setup(1));
}

#[test]
fn short_press_outside_setup_changes_nothing() {
    for mode in [Mode::Alarm, Mode::Sleep] {
        let step = button_handler(mode, PressType::Short);
        assert_eq!(step.mode, mode);
        assert_eq!(step.actions, vec![Action::ClearButtonInterrupt, Action::ClearWakeupFlag]);
    }
}

#[test]
fn no_press_only_acknowledges() {
    let step = button_handler(Mode::Setup(2), PressType::NoPress);
    assert_eq!(step.mode, Mode::Setup(2));
    assert_eq!(step.actions, vec![Action::ClearButtonInterrupt, Action::ClearWakeupFlag]);
    assert!(!step.awaiting_confirmation);
}

#[test]
fn long_press_disarms_and_waits() {
    let step = button_handler(Mode::Alarm, PressType::Long);
    assert_eq!(step.mode, Mode::Alarm);
    assert_eq!(step.actions, vec![Action::ResetAlarm, Action::PlaySetup]);
    assert!(step.awaiting_confirmation);
}

#[test]
fn long_then_long_goes_to_sleep() {
    for mode in [Mode::Alarm, Mode::Sleep, Mode::Setup(3)] {
        let step = button_confirm(mode, PressType::Long);
        assert_eq!(step.mode, Mode::Sleep);
        assert_eq!(
            step.actions,
            vec![Action::PlayReset, Action::ClearButtonInterrupt, Action::ClearWakeupFlag]
        );
    }
}

#[test]
fn long_then_short_in_setup_arms_alarm() {
    let step = button_confirm(Mode::Setup(2), PressType::Short);
    assert_eq!(step.mode, Mode::Alarm);
    assert_eq!(
        step.actions,
        vec![Action::SetAlarm(20), Action::ClearButtonInterrupt, Action::ClearWakeupFlag]
    );
}

#[test]
fn long_then_short_outside_setup_enters_setup() {
    let step = button_confirm(Mode::Sleep, PressType::NoPress);
    assert_eq!(step.mode, Mode::Setup(0));
    assert_eq!(step.actions, vec![Action::ClearButtonInterrupt, Action::ClearWakeupFlag]);
}

#[test]
fn modes_stay_well_formed() {
    let modes = [Mode::Alarm, Mode::Sleep, Mode::Setup(0), Mode::Setup(1), Mode::Setup(2), Mode::Setup(3)];
    let presses = [PressType::Short, PressType::Long, PressType::NoPress];
    for mode in modes {
        for press in presses {
            for next in [button_handler(mode, press).mode, button_confirm(mode, press).mode] {
                if let Mode::Setup(s) = next {
                    assert!(s <= PRESET_COUNT);
                }
            }
        }
    }
}

#[test]
fn on_alarm_rings_and_rearms() {
    assert_eq!(
        on_alarm(),
        vec![Action::PlayMelody, Action::ResetAlarm, Action::SetAlarm(10), Action::ClearWakeupFlag]
    );
}

#[test]
fn set_alarm_program_is_time_then_alarm() {
    let rtc = RTC::new();
    let mut expected = rtc.configure_time(&t(1, 0, 0));
    expected.extend(rtc.configure_alarm(&t(1, 0, 20)));
    assert_eq!(set_alarm(&rtc, &20), expected);
}

#[test]
fn set_alarm_rings_after_requested_seconds() {
    let rtc = RTC::new();
    let ops = set_alarm(&rtc, &30);
    let clock = match ops[6] {
        RegOp::Modify(Register::RtcTr, u) => rtc.get_time(u.apply(0)),
        _ => panic!("time register update expected"),
    };
    let alarm = match ops[14] {
        RegOp::Modify(Register::RtcAlrmar, u) => rtc.get_time(u.apply(0)),
        _ => panic!("alarm register update expected"),
    };
    assert_eq!(clock, t(1, 0, 0));
    assert_eq!(alarm, t(1, 0, 30));
}

#[test]
fn reset_alarm_disarms() {
    let rtc = RTC::new();
    let ops = reset_alarm(&rtc);
    let mut expected = rtc.configure_time(&t(0, 0, 0));
    expected.extend(rtc.configure_alarm(&t(0, 0, 0)));
    expected.push(rtc.toggle_alarm(false));
    expected.extend(rtc.clear_pending_interrupt());
    assert_eq!(ops, expected);
    assert_eq!(ops.len(), 21);
    assert_eq!(ops[18], RegOp::Modify(Register::RtcCr, Update { clear: 0x1100, set: 0 }));
    assert!(ops[19..].iter().all(|op| !matches!(op, RegOp::Modify(Register::RtcCr, _))));
}

#[test]
fn standby_mode_program() {
    assert_eq!(
        configure_standby_mode(),
        vec![
            RegOp::Modify(Register::PwrCr, Update { clear: 2, set: 2 }),
            RegOp::Modify(Register::PwrCr, Update { clear: 4, set: 4 }),
            RegOp::SetSleepDeep,
        ]
    );
}

#[test]
fn wakeup_flag_clear() {
    assert_eq!(clear_wakeup_flag(), RegOp::Modify(Register::PwrCr, Update { clear: 4, set: 4 }));
}
