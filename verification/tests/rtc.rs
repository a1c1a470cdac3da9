use stm32_f0_rust::registers::{Irq, RegOp, Register, Update};
use stm32_f0_rust::rtc::RTC;
use stm32_f0_rust::time::Time;

fn t(hours: u8, minutes: u8, seconds: u8) -> Time {
    Time { hours, minutes, seconds }
}

fn modify_of(ops: &[RegOp], reg: Register) -> Vec<Update> {
    ops.iter()
        .filter_map(|op| match op {
            RegOp::Modify(r, u) if *r == reg => Some(*u),
            _ => None,
        })
        .collect()
}

#[test]
fn configure_time_program() {
    let ops = RTC::new().configure_time(&t(12, 34, 56));
    assert_eq!(
        ops,
        vec![
            RegOp::Write(Register::RtcWpr, 0xCA),
            RegOp::Write(Register::RtcWpr, 0x53),
            RegOp::Modify(Register::RtcIsr, Update { clear: 0x80, set: 0x79A0 }),
            RegOp::WaitUntilSet(Register::RtcIsr, 0x40),
            RegOp::Modify(Register::RtcPrer, Update { clear: 0x7FFF, set: 0x137 }),
            RegOp::Modify(Register::RtcPrer, Update { clear: 0x7F_0000, set: 0x7F_0000 }),
            RegOp::Modify(Register::RtcTr, Update { clear: 0x3F_7F7F, set: 0x12_3456 }),
            RegOp::Modify(Register::RtcIsr, Update { clear: 0x80, set: 0x7920 }),
            RegOp::Write(Register::RtcWpr, 0xFE),
            RegOp::Write(Register::RtcWpr, 0x64),
        ]
    );
}

#[test]
fn configure_alarm_program() {
    let ops = RTC::new().configure_alarm(&t(1, 0, 30));
    assert_eq!(
        ops,
        vec![
            RegOp::Write(Register::RtcWpr, 0xCA),
            RegOp::Write(Register::RtcWpr, 0x53),
            RegOp::Modify(Register::RtcCr, Update { clear: 0x1100, set: 0 }),
            RegOp::WaitUntilSet(Register::RtcIsr, 0x1),
            RegOp::Modify(
                Register::RtcAlrmar,
                Update { clear: 0x80BF_FFFF, set: 0x8081_8030 }
            ),
            RegOp::Modify(Register::RtcCr, Update { clear: 0x1100, set: 0x1100 }),
            RegOp::Write(Register::RtcWpr, 0xFE),
            RegOp::Write(Register::RtcWpr, 0x64),
        ]
    );
}

#[test]
fn time_register_round_trip() {
    let rtc = RTC::new();
    for &(h, m, s) in &[(0u8, 0u8, 0u8), (23, 59, 59), (12, 34, 56), (9, 5, 7)] {
        for &old in &[0u32, 0xFFFF_FFFF, 0x0040_0000, 0x1234_5678] {
            let ops = rtc.configure_time(&t(h, m, s));
            let update = modify_of(&ops, Register::RtcTr)[0];
            let tr = update.apply(old);
            assert_eq!(rtc.get_time(tr), t(h, m, s));
            assert_eq!(tr & !0x3F_7F7F, old & !0x3F_7F7F);
        }
    }
}

#[test]
fn alarm_register_holds_time_and_masks() {
    let rtc = RTC::new();
    let ops = rtc.configure_alarm(&t(21, 43, 9));
    let update = modify_of(&ops, Register::RtcAlrmar)[0];
    let v = update.apply(0x4000_0080);
    assert_eq!(rtc.get_time(v), t(21, 43, 9));
    assert_eq!(v & 0x80, 0);
    assert_eq!(v & 0x8080_8000, 0x8080_8000);
    assert_eq!(v & 0x4000_0000, 0x4000_0000);
}

#[test]
fn get_time_decodes_bcd() {
    assert_eq!(RTC::new().get_time(0x0012_3456), t(12, 34, 56));
    assert_eq!(RTC::new().get_time(0x0023_5959), t(23, 59, 59));
}

#[test]
fn get_time_ignores_other_bits() {
    assert_eq!(RTC::new().get_time(0xFF80_8080 | 0x0001_0203), t(1, 2, 3));
}

#[test]
fn toggle_alarm_sets_and_clears_enables() {
    let rtc = RTC::new();
    let on = rtc.toggle_alarm(true);
    let off = rtc.toggle_alarm(false);
    assert_eq!(on, RegOp::Modify(Register::RtcCr, Update { clear: 0x1100, set: 0x1100 }));
    assert_eq!(off, RegOp::Modify(Register::RtcCr, Update { clear: 0x1100, set: 0 }));
    if let (RegOp::Modify(_, u_on), RegOp::Modify(_, u_off)) = (on, off) {
        assert_eq!(u_on.apply(0x0000_0040), 0x0000_1140);
        assert_eq!(u_off.apply(0x0000_1140), 0x0000_0040);
    } else {
        panic!("toggle_alarm gives a modify");
    }
}

#[test]
fn is_alarm_interrupt_reads_alraf() {
    let rtc = RTC::new();
    assert!(rtc.is_alarm_interrupt(0x0000_0107));
    assert!(!rtc.is_alarm_interrupt(0x0000_0007));
}

#[test]
fn clear_pending_interrupt_acknowledges_alarm_only() {
    let ops = RTC::new().clear_pending_interrupt();
    assert_eq!(
        ops,
        vec![
            RegOp::Modify(Register::RtcIsr, Update { clear: 0x100, set: 0x7820 }),
            RegOp::Modify(Register::ExtiPr, Update { clear: 0xB_FFFF, set: 0x2_0000 }),
        ]
    );
    let isr = modify_of(&ops, Register::RtcIsr)[0].apply(0x0000_01C7);
    assert_eq!(isr & 0x100, 0);
    assert_eq!(isr & 0x80, 0x80);
    assert!(!RTC::new().is_alarm_interrupt(isr));
    let pr = modify_of(&ops, Register::ExtiPr)[0].apply(0x000B_FFFF);
    assert_eq!(pr, 0x0002_0000);
}

#[test]
fn configure_enables_clock_then_interrupt() {
    let ops = RTC::new().configure();
    assert_eq!(
        ops,
        vec![
            RegOp::Modify(Register::RccCsr, Update { clear: 1, set: 1 }),
            RegOp::WaitUntilSet(Register::RccCsr, 2),
            RegOp::Modify(Register::RccApb1enr, Update { clear: 0x1000_0000, set: 0x1000_0000 }),
            RegOp::Modify(Register::PwrCr, Update { clear: 0x100, set: 0x100 }),
            RegOp::Modify(Register::RccBdcr, Update { clear: 0x8300, set: 0x8200 }),
            RegOp::Modify(Register::RccApb1enr, Update { clear: 0x1000_0000, set: 0 }),
            RegOp::Modify(Register::ExtiImr, Update { clear: 0x2_0000, set: 0x2_0000 }),
            RegOp::Modify(Register::ExtiRtsr, Update { clear: 0x2_0000, set: 0x2_0000 }),
            RegOp::SetPriority(Irq::Rtc, 0),
            RegOp::EnableIrq(Irq::Rtc),
        ]
    );
}

#[test]
fn disable_interrupt_masks_rtc() {
    assert_eq!(RTC::new().disable_interrupt(), RegOp::DisableIrq(Irq::Rtc));
}

#[test]
fn prescaler_divides_to_seconds() {
    let ops = RTC::new().configure_time(&t(0, 0, 0));
    let prer = modify_of(&ops, Register::RtcPrer);
    let v = prer[1].apply(prer[0].apply(0x007F_00FF));
    assert_eq!(v & 0x7FFF, 0x137);
    assert_eq!((v >> 16) & 0x7F, 0x7F);
    assert_eq!(((v >> 16) & 0x7F) + 1, 128);
    assert_eq!((v & 0x7FFF) + 1, 312);
}

#[test]
fn rtc_programs_unlock_then_lock() {
    let rtc = RTC::new();
    for ops in [rtc.configure_time(&t(5, 6, 7)), rtc.configure_alarm(&t(5, 6, 7))] {
        let n = ops.len();
        assert_eq!(ops[0], RegOp::Write(Register::RtcWpr, 0xCA));
        assert_eq!(ops[1], RegOp::Write(Register::RtcWpr, 0x53));
        assert_eq!(ops[n - 2], RegOp::Write(Register::RtcWpr, 0xFE));
        assert_eq!(ops[n - 1], RegOp::Write(Register::RtcWpr, 0x64));
        assert!(ops[2..n - 2].iter().all(|op| !matches!(op, RegOp::Write(..))));
    }
}
