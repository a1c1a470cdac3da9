//! The real-time clock: the register programs that set its clock source,
//! calendar time and alarm, and the decoding of what it reports.
use vstd::prelude::*;
use crate::registers::{
    clearing, lemma_register_after_last_touch, lemma_register_after_untouched, register_after,
    setting, touches, Irq, RegOp, Register, Update, ALRMAR_MSK1, ALRMAR_MSK2, ALRMAR_MSK3,
    ALRMAR_MSK4, CR_ALRAE, CR_ALRAIE, EXTI_LINE_17, EXTI_PR_CLEARED_BY_ONE, ISR_ALRAF,
    ISR_ALRAWF, ISR_CLEARED_BY_ZERO, ISR_INIT, ISR_INITF, PREDIV_A_VALUE, PREDIV_S_VALUE,
    PRER_PREDIV_A, PRER_PREDIV_S, PWR_CR_DBP, RCC_APB1ENR_PWREN, RCC_BDCR_RTCEN,
    RCC_BDCR_RTCSEL, RCC_BDCR_RTCSEL_LSI, RCC_CSR_LSION, RCC_CSR_LSIRDY, TIME_FIELDS,
    WPR_LOCK_KEY_1, WPR_LOCK_KEY_2, WPR_UNLOCK_KEY_1, WPR_UNLOCK_KEY_2,
};
use crate::time::Time;

verus! {

/// The BCD fields of the time register (and of alarm A) for `t`: the tens and
/// units of hours, minutes and seconds, each cut to the width of its field.
pub open spec fn bcd_time(t: Time) -> u32 {
    let ht = (t.hours / 10) as u32;
    let hu = (t.hours % 10) as u32;
    let mnt = (t.minutes / 10) as u32;
    let mnu = (t.minutes % 10) as u32;
    let st = (t.seconds / 10) as u32;
    let su = (t.seconds % 10) as u32;
    ((ht & 3) << 20) | ((hu & 0xF) << 16) | ((mnt & 7) << 12) | ((mnu & 0xF) << 8) | ((st & 7)
        << 4) | (su & 0xF)
}

/// The time that the BCD fields of a time (or alarm) register value stand for.
pub open spec fn time_of_register(v: u32) -> Time {
    Time {
        hours: (((v >> 20) & 3) * 10 + ((v >> 16) & 0xF)) as u8,
        minutes: (((v >> 12) & 7) * 10 + ((v >> 8) & 0xF)) as u8,
        seconds: (((v >> 4) & 7) * 10 + (v & 0xF)) as u8,
    }
}

/// The update of the time register that sets the calendar time to `t`.
pub open spec fn time_update(t: Time) -> Update {
    Update { clear: TIME_FIELDS, set: bcd_time(t) }
}

/// The update of alarm A that sets its time to `t`, compares the seconds only
/// (MSK1 clear) and ignores minutes, hours and date (MSK2, MSK3, MSK4 set): the
/// alarm fires once a minute, when the seconds match.
pub open spec fn alarm_update(t: Time) -> Update {
    Update {
        clear: TIME_FIELDS | ALRMAR_MSK1 | ALRMAR_MSK2 | ALRMAR_MSK3 | ALRMAR_MSK4,
        set: bcd_time(t) | ALRMAR_MSK2 | ALRMAR_MSK3 | ALRMAR_MSK4,
    }
}

/// The update of the control register that turns alarm A and its interrupt on or off.
pub open spec fn alarm_toggle_update(enable: bool) -> Update {
    if enable {
        setting(CR_ALRAIE | CR_ALRAE)
    } else {
        clearing(CR_ALRAIE | CR_ALRAE)
    }
}

/// The update of the status register that requests initialization mode.
pub open spec fn init_enter_update() -> Update {
    Update { clear: ISR_INIT, set: ISR_CLEARED_BY_ZERO | ISR_INIT }
}

/// The update of the status register that leaves initialization mode.
pub open spec fn init_exit_update() -> Update {
    Update { clear: ISR_INIT, set: ISR_CLEARED_BY_ZERO }
}

/// The update of the status register that clears the alarm A flag.
pub open spec fn alarm_flag_clear_update() -> Update {
    Update { clear: ISR_ALRAF, set: ISR_CLEARED_BY_ZERO & !ISR_ALRAF }
}

/// The update of the EXTI pending register that clears line 17 alone.
pub open spec fn alarm_line_clear_update() -> Update {
    Update { clear: EXTI_PR_CLEARED_BY_ONE, set: EXTI_LINE_17 }
}

/// The two writes that lift the write protection of the RTC registers.
pub open spec fn unlock_program() -> Seq<RegOp> {
    seq![RegOp::Write(Register::RtcWpr, WPR_UNLOCK_KEY_1), RegOp::Write(Register::RtcWpr, WPR_UNLOCK_KEY_2)]
}

/// The two writes that restore the write protection of the RTC registers.
pub open spec fn lock_program() -> Seq<RegOp> {
    seq![RegOp::Write(Register::RtcWpr, WPR_LOCK_KEY_1), RegOp::Write(Register::RtcWpr, WPR_LOCK_KEY_2)]
}

/// Clocks the RTC from the LSI oscillator and opens the backup domain to writes.
pub open spec fn clock_program() -> Seq<RegOp> {
    seq![
        RegOp::Modify(Register::RccCsr, setting(RCC_CSR_LSION)),
        RegOp::WaitUntilSet(Register::RccCsr, RCC_CSR_LSIRDY),
        RegOp::Modify(Register::RccApb1enr, setting(RCC_APB1ENR_PWREN)),
        RegOp::Modify(Register::PwrCr, setting(PWR_CR_DBP)),
        RegOp::Modify(
            Register::RccBdcr,
            Update { clear: RCC_BDCR_RTCEN | RCC_BDCR_RTCSEL, set: RCC_BDCR_RTCEN | RCC_BDCR_RTCSEL_LSI },
        ),
        RegOp::Modify(Register::RccApb1enr, clearing(RCC_APB1ENR_PWREN)),
    ]
}

/// Routes the alarm to the NVIC: EXTI line 17 unmasked on a rising edge, the
/// RTC interrupt at priority 0 and enabled.
pub open spec fn interrupt_program() -> Seq<RegOp> {
    seq![
        RegOp::Modify(Register::ExtiImr, setting(EXTI_LINE_17)),
        RegOp::Modify(Register::ExtiRtsr, setting(EXTI_LINE_17)),
        RegOp::SetPriority(Irq::Rtc, 0),
        RegOp::EnableIrq(Irq::Rtc),
    ]
}

/// Sets the calendar time to `t`, with the prescalers that divide the 40 kHz
/// LSI clock by 128 and then by 312.
pub open spec fn time_program(t: Time) -> Seq<RegOp> {
    unlock_program() + seq![
        RegOp::Modify(Register::RtcIsr, init_enter_update()),
        RegOp::WaitUntilSet(Register::RtcIsr, ISR_INITF),
        RegOp::Modify(Register::RtcPrer, Update { clear: PRER_PREDIV_S, set: PREDIV_S_VALUE }),
        RegOp::Modify(Register::RtcPrer, Update { clear: PRER_PREDIV_A, set: PREDIV_A_VALUE << 16 }),
        RegOp::Modify(Register::RtcTr, time_update(t)),
        RegOp::Modify(Register::RtcIsr, init_exit_update()),
    ] + lock_program()
}

/// Sets alarm A to `t`: the alarm is switched off while it is changed and on again after.
pub open spec fn alarm_program(t: Time) -> Seq<RegOp> {
    unlock_program() + seq![
        RegOp::Modify(Register::RtcCr, alarm_toggle_update(false)),
        RegOp::WaitUntilSet(Register::RtcIsr, ISR_ALRAWF),
        RegOp::Modify(Register::RtcAlrmar, alarm_update(t)),
        RegOp::Modify(Register::RtcCr, alarm_toggle_update(true)),
    ] + lock_program()
}

/// Acknowledges an alarm: the alarm A flag and the pending EXTI line 17.
pub open spec fn clear_pending_program() -> Seq<RegOp> {
    seq![
        RegOp::Modify(Register::RtcIsr, alarm_flag_clear_update()),
        RegOp::Modify(Register::ExtiPr, alarm_line_clear_update()),
    ]
}

/// The real-time clock peripheral, driven through register programs.
pub struct RTC {}

impl RTC {
    pub fn new() -> RTC {
        RTC {  }
    }

    /// Enables the RTC clock and its interrupt.
    pub fn configure(&self) -> (ops: Vec<RegOp>)
        ensures
            ops@ == clock_program() + interrupt_program(),
    {
        let mut ops = self.configure_clock();
        let mut interrupts = self.configure_interrupts();
        ops.append(&mut interrupts);
        ops
    }

    /// Whether the status register value reports the alarm A flag.
    pub fn is_alarm_interrupt(&self, isr: u32) -> (alarm: bool)
        ensures
            alarm == (isr & ISR_ALRAF != 0),
    {
        isr & ISR_ALRAF != 0
    }

    /// Masks the RTC interrupt in the NVIC.
    pub fn disable_interrupt(&self) -> (op: RegOp)
        ensures
            op == RegOp::DisableIrq(Irq::Rtc),
    {
        RegOp::DisableIrq(Irq::Rtc)
    }

    /// Clears the alarm A flag and the pending EXTI line 17.
    pub fn clear_pending_interrupt(&self) -> (ops: Vec<RegOp>)
        ensures
            ops@ == clear_pending_program(),
    {
        let mut ops = Vec::new();
        ops.push(
            RegOp::Modify(
                Register::RtcIsr,
                Update { clear: ISR_ALRAF, set: ISR_CLEARED_BY_ZERO & !ISR_ALRAF },
            ),
        );
        ops.push(
            RegOp::Modify(
                Register::ExtiPr,
                Update { clear: EXTI_PR_CLEARED_BY_ONE, set: EXTI_LINE_17 },
            ),
        );
        ops
    }

    fn configure_clock(&self) -> (ops: Vec<RegOp>)
        ensures
            ops@ == clock_program(),
    {
        let mut ops = Vec::new();
        ops.push(
            RegOp::Modify(Register::RccCsr, Update { clear: RCC_CSR_LSION, set: RCC_CSR_LSION }),
        );
        ops.push(RegOp::WaitUntilSet(Register::RccCsr, RCC_CSR_LSIRDY));
        ops.push(
            RegOp::Modify(
                Register::RccApb1enr,
                Update { clear: RCC_APB1ENR_PWREN, set: RCC_APB1ENR_PWREN },
            ),
        );
        ops.push(RegOp::Modify(Register::PwrCr, Update { clear: PWR_CR_DBP, set: PWR_CR_DBP }));
        ops.push(
            RegOp::Modify(
                Register::RccBdcr,
                Update {
                    clear: RCC_BDCR_RTCEN | RCC_BDCR_RTCSEL,
                    set: RCC_BDCR_RTCEN | RCC_BDCR_RTCSEL_LSI,
                },
            ),
        );
        ops.push(
            RegOp::Modify(Register::RccApb1enr, Update { clear: RCC_APB1ENR_PWREN, set: 0 }),
        );
        ops
    }

    /// Sets alarm A to `time`, seconds compared only, and enables it.
    pub fn configure_alarm(&self, time: &Time) -> (ops: Vec<RegOp>)
        ensures
            ops@ == alarm_program(*time),
    {
        let mut ops = Vec::new();
        ops.push(RegOp::Write(Register::RtcWpr, WPR_UNLOCK_KEY_1));
        ops.push(RegOp::Write(Register::RtcWpr, WPR_UNLOCK_KEY_2));
        ops.push(self.toggle_alarm(false));
        ops.push(RegOp::WaitUntilSet(Register::RtcIsr, ISR_ALRAWF));
        let set = bcd_fields(time) | ALRMAR_MSK2 | ALRMAR_MSK3 | ALRMAR_MSK4;
        ops.push(
            RegOp::Modify(
                Register::RtcAlrmar,
                Update {
                    clear: TIME_FIELDS | ALRMAR_MSK1 | ALRMAR_MSK2 | ALRMAR_MSK3 | ALRMAR_MSK4,
                    set,
                },
            ),
        );
        ops.push(self.toggle_alarm(true));
        ops.push(RegOp::Write(Register::RtcWpr, WPR_LOCK_KEY_1));
        ops.push(RegOp::Write(Register::RtcWpr, WPR_LOCK_KEY_2));
        assert(ops@ =~= alarm_program(*time));
        ops
    }

    /// Turns alarm A and its interrupt on or off.
    pub fn toggle_alarm(&self, enable: bool) -> (op: RegOp)
        ensures
            op == RegOp::Modify(Register::RtcCr, alarm_toggle_update(enable)),
    {
        if enable {
            RegOp::Modify(
                Register::RtcCr,
                Update { clear: CR_ALRAIE | CR_ALRAE, set: CR_ALRAIE | CR_ALRAE },
            )
        } else {
            RegOp::Modify(Register::RtcCr, Update { clear: CR_ALRAIE | CR_ALRAE, set: 0 })
        }
    }

    /// Sets the calendar time to `time` and the prescalers to one tick a second.
    pub fn configure_time(&self, time: &Time) -> (ops: Vec<RegOp>)
        ensures
            ops@ == time_program(*time),
    {
        let mut ops = Vec::new();
        ops.push(RegOp::Write(Register::RtcWpr, WPR_UNLOCK_KEY_1));
        ops.push(RegOp::Write(Register::RtcWpr, WPR_UNLOCK_KEY_2));
        ops.push(
            RegOp::Modify(
                Register::RtcIsr,
                Update { clear: ISR_INIT, set: ISR_CLEARED_BY_ZERO | ISR_INIT },
            ),
        );
        ops.push(RegOp::WaitUntilSet(Register::RtcIsr, ISR_INITF));
        ops.push(
            RegOp::Modify(Register::RtcPrer, Update { clear: PRER_PREDIV_S, set: PREDIV_S_VALUE }),
        );
        ops.push(
            RegOp::Modify(
                Register::RtcPrer,
                Update { clear: PRER_PREDIV_A, set: PREDIV_A_VALUE << 16 },
            ),
        );
        ops.push(
            RegOp::Modify(Register::RtcTr, Update { clear: TIME_FIELDS, set: bcd_fields(time) }),
        );
        ops.push(
            RegOp::Modify(Register::RtcIsr, Update { clear: ISR_INIT, set: ISR_CLEARED_BY_ZERO }),
        );
        ops.push(RegOp::Write(Register::RtcWpr, WPR_LOCK_KEY_1));
        ops.push(RegOp::Write(Register::RtcWpr, WPR_LOCK_KEY_2));
        assert(ops@ =~= time_program(*time));
        ops
    }

    /// The time that a value read from the time register stands for.
    pub fn get_time(&self, tr: u32) -> (time: Time)
        ensures
            time == time_of_register(tr),
    {
        assert((tr >> 20) & 3 <= 3) by (bit_vector);
        assert((tr >> 16) & 0xF <= 15) by (bit_vector);
        assert((tr >> 12) & 7 <= 7) by (bit_vector);
        assert((tr >> 8) & 0xF <= 15) by (bit_vector);
        assert((tr >> 4) & 7 <= 7) by (bit_vector);
        assert(tr & 0xF <= 15) by (bit_vector);
        let ht = ((tr >> 20) & 3) as u8;
        let hu = ((tr >> 16) & 0xF) as u8;
        let mnt = ((tr >> 12) & 7) as u8;
        let mnu = ((tr >> 8) & 0xF) as u8;
        let st = ((tr >> 4) & 7) as u8;
        let su = (tr & 0xF) as u8;
        Time { hours: ht * 10 + hu, minutes: mnt * 10 + mnu, seconds: st * 10 + su }
    }

    fn configure_interrupts(&self) -> (ops: Vec<RegOp>)
        ensures
            ops@ == interrupt_program(),
    {
        let mut ops = Vec::new();
        ops.push(
            RegOp::Modify(Register::ExtiImr, Update { clear: EXTI_LINE_17, set: EXTI_LINE_17 }),
        );
        ops.push(
            RegOp::Modify(Register::ExtiRtsr, Update { clear: EXTI_LINE_17, set: EXTI_LINE_17 }),
        );
        ops.push(RegOp::SetPriority(Irq::Rtc, 0));
        ops.push(RegOp::EnableIrq(Irq::Rtc));
        ops
    }
}

/// The BCD fields of `time`, as the time and alarm registers hold them.
fn bcd_fields(time: &Time) -> (v: u32)
    ensures
        v == bcd_time(*time),
{
    let ht = (time.hours / 10) as u32;
    let hu = (time.hours % 10) as u32;
    let mnt = (time.minutes / 10) as u32;
    let mnu = (time.minutes % 10) as u32;
    let st = (time.seconds / 10) as u32;
    let su = (time.seconds % 10) as u32;
    ((ht & 3) << 20) | ((hu & 0xF) << 16) | ((mnt & 7) << 12) | ((mnu & 0xF) << 8) | ((st & 7)
        << 4) | (su & 0xF)
}

/// The six BCD fields sit in their own bits of the register: writing them leaves
/// every other bit as it was, and reading them back gives what was written.
proof fn lemma_bcd_fields_read_back(old: u32, v: u32, a: u32, b: u32, c: u32, d: u32, e: u32, f: u32)
    by (bit_vector)
    requires
        a < 4,
        b < 16,
        c < 8,
        d < 16,
        e < 8,
        f < 16,
        v == (old & !0x003F_7F7Fu32) | (((a & 3) << 20) | ((b & 0xF) << 16) | ((c & 7) << 12) | ((d
            & 0xF) << 8) | ((e & 7) << 4) | (f & 0xF)),
    ensures
        (v >> 20) & 3 == a,
        (v >> 16) & 0xF == b,
        (v >> 12) & 7 == c,
        (v >> 8) & 0xF == d,
        (v >> 4) & 7 == e,
        v & 0xF == f,
        v & !0x003F_7F7Fu32 == old & !0x003F_7F7Fu32,
{
}

/// The alarm fields and masks: the time fields as in the time register, the
/// seconds compared, minutes, hours and date ignored, every other bit kept.
proof fn lemma_alarm_fields_read_back(old: u32, v: u32, w: u32, bcd: u32)
    by (bit_vector)
    requires
        bcd & !0x003F_7F7Fu32 == 0,
        w == (old & !0x003F_7F7Fu32) | bcd,
        v == (old & !(0x003F_7F7Fu32 | 0x80u32 | 0x8000u32 | 0x0080_0000u32 | 0x8000_0000u32)) | (bcd
            | 0x8000u32 | 0x0080_0000u32 | 0x8000_0000u32),
    ensures
        v & 0x003F_7F7Fu32 == w & 0x003F_7F7Fu32,
        v & 0x80u32 == 0,
        v & 0x8000u32 == 0x8000u32,
        v & 0x0080_0000u32 == 0x0080_0000u32,
        v & 0x8000_0000u32 == 0x8000_0000u32,
        v & !(0x003F_7F7Fu32 | 0x80u32 | 0x8000u32 | 0x0080_0000u32 | 0x8000_0000u32) == old & !(
        0x003F_7F7Fu32 | 0x80u32 | 0x8000u32 | 0x0080_0000u32 | 0x8000_0000u32),
{
}

/// Two register values that agree on the time fields stand for the same time.
proof fn lemma_time_of_register_reads_time_fields(v: u32, w: u32)
    requires
        v & 0x003F_7F7Fu32 == w & 0x003F_7F7Fu32,
    ensures
        time_of_register(v) == time_of_register(w),
{
    assert((v >> 20) & 3 == (w >> 20) & 3 && (v >> 16) & 0xF == (w >> 16) & 0xF && (v >> 12) & 7
        == (w >> 12) & 7 && (v >> 8) & 0xF == (w >> 8) & 0xF && (v >> 4) & 7 == (w >> 4) & 7 && v
        & 0xF == w & 0xF) by (bit_vector)
        requires
            v & 0x003F_7F7Fu32 == w & 0x003F_7F7Fu32,
    ;
}

/// Setting the calendar time to a valid `t` and reading the time register back
/// gives `t`, whatever the register held before; the bits outside the time
/// fields (the AM/PM flag among them) are left as they were.
pub proof fn lemma_time_register_round_trip(t: Time, old: u32)
    requires
        t.valid(),
    ensures
        time_program(t)[6] == RegOp::Modify(Register::RtcTr, time_update(t)),
        time_of_register(time_update(t).applied_to(old)) == t,
        time_update(t).applied_to(old) & !TIME_FIELDS == old & !TIME_FIELDS,
{
    let a = (t.hours / 10) as u32;
    let b = (t.hours % 10) as u32;
    let c = (t.minutes / 10) as u32;
    let d = (t.minutes % 10) as u32;
    let e = (t.seconds / 10) as u32;
    let f = (t.seconds % 10) as u32;
    let v = time_update(t).applied_to(old);
    lemma_bcd_fields_read_back(old, v, a, b, c, d, e, f);
    assert(a * 10 + b == t.hours);
    assert(c * 10 + d == t.minutes);
    assert(e * 10 + f == t.seconds);
}

/// Setting alarm A to a valid `t` stores `t` in its time fields, compares the
/// seconds only (MSK1 clear; MSK2, MSK3, MSK4 set) and keeps the other bits
/// (AM/PM, week-day selection, date) as they were.
pub proof fn lemma_alarm_register_holds_time(t: Time, old: u32)
    requires
        t.valid(),
    ensures
        alarm_program(t)[4] == RegOp::Modify(Register::RtcAlrmar, alarm_update(t)),
        time_of_register(alarm_update(t).applied_to(old)) == t,
        alarm_update(t).applied_to(old) & ALRMAR_MSK1 == 0,
        alarm_update(t).applied_to(old) & ALRMAR_MSK2 == ALRMAR_MSK2,
        alarm_update(t).applied_to(old) & ALRMAR_MSK3 == ALRMAR_MSK3,
        alarm_update(t).applied_to(old) & ALRMAR_MSK4 == ALRMAR_MSK4,
        alarm_update(t).applied_to(old) & !(TIME_FIELDS | ALRMAR_MSK1 | ALRMAR_MSK2 | ALRMAR_MSK3
            | ALRMAR_MSK4) == old & !(TIME_FIELDS | ALRMAR_MSK1 | ALRMAR_MSK2 | ALRMAR_MSK3
            | ALRMAR_MSK4),
{
    let a = (t.hours / 10) as u32;
    let b = (t.hours % 10) as u32;
    let c = (t.minutes / 10) as u32;
    let d = (t.minutes % 10) as u32;
    let e = (t.seconds / 10) as u32;
    let f = (t.seconds % 10) as u32;
    let w = time_update(t).applied_to(old);
    let v = alarm_update(t).applied_to(old);
    let bcd = bcd_time(t);
    lemma_time_register_round_trip(t, old);
    assert(bcd & !0x003F_7F7Fu32 == 0) by (bit_vector)
        requires
            bcd == ((a & 3) << 20) | ((b & 0xF) << 16) | ((c & 7) << 12) | ((d & 0xF) << 8) | ((e
                & 7) << 4) | (f & 0xF),
    ;
    lemma_alarm_fields_read_back(old, v, w, bcd);
    lemma_time_of_register_reads_time_fields(v, w);
}

/// Turning the alarm on sets both the alarm enable and its interrupt enable,
/// turning it off clears both; no other bit of the control register changes.
pub proof fn lemma_alarm_toggle(enable: bool, old: u32)
    ensures
        alarm_toggle_update(enable).applied_to(old) & (CR_ALRAIE | CR_ALRAE) == (if enable {
            CR_ALRAIE | CR_ALRAE
        } else {
            0
        }),
        alarm_toggle_update(enable).applied_to(old) & !(CR_ALRAIE | CR_ALRAE) == old & !(CR_ALRAIE
            | CR_ALRAE),
{
    assert(CR_ALRAIE | CR_ALRAE == 0x1100u32) by (bit_vector);
    assert(((old & !0x1100u32) | 0x1100u32) & 0x1100u32 == 0x1100u32) by (bit_vector);
    assert(((old & !0x1100u32) | 0u32) & 0x1100u32 == 0u32) by (bit_vector);
    assert(((old & !0x1100u32) | 0x1100u32) & !0x1100u32 == old & !0x1100u32) by (bit_vector);
    assert(((old & !0x1100u32) | 0u32) & !0x1100u32 == old & !0x1100u32) by (bit_vector);
}

/// Acknowledging an alarm clears the alarm A flag, writes every other flag that
/// a zero would clear as one (so none of them is lost) and leaves the
/// initialization request as it was; in the EXTI pending register it writes a
/// one to line 17 and a zero to every other line, so that no other pending
/// line is cleared.
pub proof fn lemma_clear_pending_acknowledges_alarm_only(isr: u32, pr: u32)
    ensures
        alarm_flag_clear_update().applied_to(isr) & ISR_ALRAF == 0,
        alarm_flag_clear_update().applied_to(isr) & (ISR_CLEARED_BY_ZERO & !ISR_ALRAF) == (
        ISR_CLEARED_BY_ZERO & !ISR_ALRAF),
        alarm_flag_clear_update().applied_to(isr) & ISR_INIT == isr & ISR_INIT,
        alarm_line_clear_update().applied_to(pr) & EXTI_PR_CLEARED_BY_ONE == EXTI_LINE_17,
{
    assert(((isr & !0x100u32) | (0x7920u32 & !0x100u32)) & 0x100u32 == 0) by (bit_vector);
    assert(((isr & !0x100u32) | (0x7920u32 & !0x100u32)) & (0x7920u32 & !0x100u32) == (0x7920u32
        & !0x100u32)) by (bit_vector);
    assert(((isr & !0x100u32) | (0x7920u32 & !0x100u32)) & 0x80u32 == isr & 0x80u32)
        by (bit_vector);
    assert(((pr & !0x000B_FFFFu32) | 0x0002_0000u32) & 0x000B_FFFFu32 == 0x0002_0000u32)
        by (bit_vector);
}

/// Entering initialization mode sets the request bit, leaving it clears the bit;
/// neither clears a flag that a written zero would clear.
pub proof fn lemma_init_mode_updates(isr: u32)
    ensures
        init_enter_update().applied_to(isr) & ISR_INIT == ISR_INIT,
        init_exit_update().applied_to(isr) & ISR_INIT == 0,
        init_enter_update().applied_to(isr) & ISR_CLEARED_BY_ZERO == ISR_CLEARED_BY_ZERO,
        init_exit_update().applied_to(isr) & ISR_CLEARED_BY_ZERO == ISR_CLEARED_BY_ZERO,
{
    assert(((isr & !0x80u32) | (0x7920u32 | 0x80u32)) & 0x80u32 == 0x80u32) by (bit_vector);
    assert(((isr & !0x80u32) | 0x7920u32) & 0x80u32 == 0) by (bit_vector);
    assert(((isr & !0x80u32) | (0x7920u32 | 0x80u32)) & 0x7920u32 == 0x7920u32) by (bit_vector);
    assert(((isr & !0x80u32) | 0x7920u32) & 0x7920u32 == 0x7920u32) by (bit_vector);
}

/// The two prescaler updates of `configure_time` leave an asynchronous factor
/// of 0x7F and a synchronous factor of 0x137: the 40 kHz LSI clock is divided
/// by 128 and then by 312, 39936 in all, for a calendar tick of about a second.
pub proof fn lemma_prescaler_divides_to_seconds(old: u32)
    ensures
        ({
            let v = Update { clear: PRER_PREDIV_A, set: PREDIV_A_VALUE << 16 }.applied_to(
                Update { clear: PRER_PREDIV_S, set: PREDIV_S_VALUE }.applied_to(old),
            );
            &&& (v >> 16) & 0x7F == PREDIV_A_VALUE
            &&& v & PRER_PREDIV_S == PREDIV_S_VALUE
            &&& (PREDIV_A_VALUE + 1) * (PREDIV_S_VALUE + 1) == 39936
        }),
{
    let v = Update { clear: PRER_PREDIV_A, set: PREDIV_A_VALUE << 16 }.applied_to(
        Update { clear: PRER_PREDIV_S, set: PREDIV_S_VALUE }.applied_to(old),
    );
    assert(v == (((old & !0x7FFFu32) | 0x137u32) & !0x007F_0000u32) | (0x7Fu32 << 16u32));
    assert((((((old & !0x7FFFu32) | 0x137u32) & !0x007F_0000u32) | (0x7Fu32 << 16u32)) >> 16u32)
        & 0x7Fu32 == 0x7Fu32) by (bit_vector);
    assert(((((old & !0x7FFFu32) | 0x137u32) & !0x007F_0000u32) | (0x7Fu32 << 16u32)) & 0x7FFFu32
        == 0x137u32) by (bit_vector);
}

/// Every change of the calendar time or of the alarm happens with the RTC
/// registers unlocked: the program opens with the two unlock keys, closes with
/// the two lock keys, and writes the protection register nowhere in between.
pub proof fn lemma_rtc_programs_unlock_then_lock(t: Time)
    ensures
        time_program(t).subrange(0, 2) == unlock_program(),
        time_program(t).subrange(time_program(t).len() - 2, time_program(t).len() as int)
            == lock_program(),
        forall|i: int|
            2 <= i < time_program(t).len() - 2 ==> !(#[trigger] time_program(t)[i] is Write),
        alarm_program(t).subrange(0, 2) == unlock_program(),
        alarm_program(t).subrange(alarm_program(t).len() - 2, alarm_program(t).len() as int)
            == lock_program(),
        forall|i: int|
            2 <= i < alarm_program(t).len() - 2 ==> !(#[trigger] alarm_program(t)[i] is Write),
{
    assert(time_program(t).subrange(0, 2) =~= unlock_program());
    assert(time_program(t).subrange(8, 10) =~= lock_program());
    assert(alarm_program(t).subrange(0, 2) =~= unlock_program());
    assert(alarm_program(t).subrange(6, 8) =~= lock_program());
}

/// Running the time program on a valid `t` leaves in the time register the
/// decimal digits of `t`, each in its BCD field: tens and units of hours,
/// minutes and seconds; every bit outside the time fields keeps its old value.
pub proof fn lemma_time_program_writes_bcd_digits(t: Time, old: u32)
    requires
        t.valid(),
    ensures
        ({
            let v = register_after(time_program(t), Register::RtcTr, old);
            &&& (v >> 20) & 3 == t.hours / 10
            &&& (v >> 16) & 0xF == t.hours % 10
            &&& (v >> 12) & 7 == t.minutes / 10
            &&& (v >> 8) & 0xF == t.minutes % 10
            &&& (v >> 4) & 7 == t.seconds / 10
            &&& v & 0xF == t.seconds % 10
            &&& v & !TIME_FIELDS == old & !TIME_FIELDS
        }),
{
    let p = time_program(t);
    let reg = Register::RtcTr;
    assert forall|i: int| 6 < i < p.len() implies !touches(#[trigger] p[i], reg) by {
        if i == 7 {
        } else if i == 8 {
        } else {
        }
    }
    lemma_register_after_last_touch(p, reg, old, 6);
    let pre = p.subrange(0, 6);
    assert forall|i: int| 0 <= i < pre.len() implies !touches(#[trigger] pre[i], reg) by {
        assert(pre[i] == p[i]);
        if i == 0 {
        } else if i == 1 {
        } else if i == 2 {
        } else if i == 3 {
        } else if i == 4 {
        } else {
        }
    }
    lemma_register_after_untouched(pre, reg, old);
    let v = register_after(p, reg, old);
    assert(v == time_update(t).applied_to(old));
    let a = (t.hours / 10) as u32;
    let b = (t.hours % 10) as u32;
    let c = (t.minutes / 10) as u32;
    let d = (t.minutes % 10) as u32;
    let e = (t.seconds / 10) as u32;
    let f = (t.seconds % 10) as u32;
    lemma_bcd_fields_read_back(old, v, a, b, c, d, e, f);
}

/// Running the alarm program on any `t` leaves alarm A and its interrupt
/// enabled, whatever the control register held; on a valid `t` alarm A holds
/// the decimal digits of `t` in BCD, compares the seconds only and keeps its
/// other bits.
pub proof fn lemma_alarm_program_arms_alarm(t: Time, cr: u32, alrmar: u32)
    ensures
        register_after(alarm_program(t), Register::RtcCr, cr) & (CR_ALRAIE | CR_ALRAE) == (CR_ALRAIE
            | CR_ALRAE),
        t.valid() ==> ({
            let a = register_after(alarm_program(t), Register::RtcAlrmar, alrmar);
            &&& (a >> 20) & 3 == t.hours / 10
            &&& (a >> 16) & 0xF == t.hours % 10
            &&& (a >> 12) & 7 == t.minutes / 10
            &&& (a >> 8) & 0xF == t.minutes % 10
            &&& (a >> 4) & 7 == t.seconds / 10
            &&& a & 0xF == t.seconds % 10
            &&& a & ALRMAR_MSK1 == 0
            &&& a & (ALRMAR_MSK2 | ALRMAR_MSK3 | ALRMAR_MSK4) == (ALRMAR_MSK2 | ALRMAR_MSK3
                | ALRMAR_MSK4)
            &&& a & !(TIME_FIELDS | ALRMAR_MSK1 | ALRMAR_MSK2 | ALRMAR_MSK3 | ALRMAR_MSK4)
                == alrmar & !(TIME_FIELDS | ALRMAR_MSK1 | ALRMAR_MSK2 | ALRMAR_MSK3 | ALRMAR_MSK4)
        }),
{
    let p = alarm_program(t);
    assert forall|i: int| 5 < i < p.len() implies !touches(#[trigger] p[i], Register::RtcCr) by {
        if i == 6 {
        } else {
        }
    }
    lemma_register_after_last_touch(p, Register::RtcCr, cr, 5);
    let before = register_after(p.subrange(0, 5), Register::RtcCr, cr);
    lemma_alarm_toggle(true, before);
    if t.valid() {
        let reg = Register::RtcAlrmar;
        assert forall|i: int| 4 < i < p.len() implies !touches(#[trigger] p[i], reg) by {
            if i == 5 {
            } else if i == 6 {
            } else {
            }
        }
        lemma_register_after_last_touch(p, reg, alrmar, 4);
        let pre = p.subrange(0, 4);
        assert forall|i: int| 0 <= i < pre.len() implies !touches(#[trigger] pre[i], reg) by {
            assert(pre[i] == p[i]);
            if i == 0 {
            } else if i == 1 {
            } else if i == 2 {
            } else {
            }
        }
        lemma_register_after_untouched(pre, reg, alrmar);
        let a = register_after(p, reg, alrmar);
        assert(a == alarm_update(t).applied_to(alrmar));
        lemma_alarm_register_holds_time(t, alrmar);
        let w = time_update(t).applied_to(alrmar);
        lemma_time_program_digits_of_update(t, alrmar);
        assert(a & 0x003F_7F7Fu32 == w & 0x003F_7F7Fu32) by {
            let bcd = bcd_time(t);
            let ha = (t.hours / 10) as u32;
            let hb = (t.hours % 10) as u32;
            let mc = (t.minutes / 10) as u32;
            let md = (t.minutes % 10) as u32;
            let se = (t.seconds / 10) as u32;
            let sf = (t.seconds % 10) as u32;
            assert(bcd & !0x003F_7F7Fu32 == 0) by (bit_vector)
                requires
                    bcd == ((ha & 3) << 20) | ((hb & 0xF) << 16) | ((mc & 7) << 12) | ((md & 0xF)
                        << 8) | ((se & 7) << 4) | (sf & 0xF),
            ;
            lemma_alarm_fields_read_back(alrmar, a, w, bcd);
        }
        lemma_same_time_fields_same_digits(a, w);
        assert(ALRMAR_MSK2 | ALRMAR_MSK3 | ALRMAR_MSK4 == 0x8080_8000u32) by (bit_vector);
        assert(a & 0x8080_8000u32 == 0x8080_8000u32) by (bit_vector)
            requires
                a & 0x8000u32 == 0x8000u32,
                a & 0x0080_0000u32 == 0x0080_0000u32,
                a & 0x8000_0000u32 == 0x8000_0000u32,
        ;
    }
}

/// The BCD digits of the time register after the update for a valid `t`.
proof fn lemma_time_program_digits_of_update(t: Time, old: u32)
    requires
        t.valid(),
    ensures
        ({
            let v = time_update(t).applied_to(old);
            &&& (v >> 20) & 3 == t.hours / 10
            &&& (v >> 16) & 0xF == t.hours % 10
            &&& (v >> 12) & 7 == t.minutes / 10
            &&& (v >> 8) & 0xF == t.minutes % 10
            &&& (v >> 4) & 7 == t.seconds / 10
            &&& v & 0xF == t.seconds % 10
        }),
{
    let v = time_update(t).applied_to(old);
    lemma_bcd_fields_read_back(
        old,
        v,
        (t.hours / 10) as u32,
        (t.hours % 10) as u32,
        (t.minutes / 10) as u32,
        (t.minutes % 10) as u32,
        (t.seconds / 10) as u32,
        (t.seconds % 10) as u32,
    );
}

/// Two values that agree on the time fields agree on each BCD digit.
proof fn lemma_same_time_fields_same_digits(v: u32, w: u32)
    requires
        v & 0x003F_7F7Fu32 == w & 0x003F_7F7Fu32,
    ensures
        (v >> 20) & 3 == (w >> 20) & 3,
        (v >> 16) & 0xF == (w >> 16) & 0xF,
        (v >> 12) & 7 == (w >> 12) & 7,
        (v >> 8) & 0xF == (w >> 8) & 0xF,
        (v >> 4) & 7 == (w >> 4) & 7,
        v & 0xF == w & 0xF,
{
    assert((v >> 20) & 3 == (w >> 20) & 3 && (v >> 16) & 0xF == (w >> 16) & 0xF && (v >> 12) & 7
        == (w >> 12) & 7 && (v >> 8) & 0xF == (w >> 8) & 0xF && (v >> 4) & 7 == (w >> 4) & 7 && v
        & 0xF == w & 0xF) by (bit_vector)
        requires
            v & 0x003F_7F7Fu32 == w & 0x003F_7F7Fu32,
    ;
}

} // verus!
