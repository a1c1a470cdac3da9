//! The registers that the firmware touches, their bit layouts, and the
//! operations of a register program: what the interrupt and start-up code asks
//! the hardware to do, in order.
use vstd::prelude::*;

verus! {

/// A memory-mapped peripheral register.
#[derive(Clone, Copy, Debug, PartialEq, Eq, Structural)]
pub enum Register {
    RtcWpr,
    RtcIsr,
    RtcPrer,
    RtcTr,
    RtcAlrmar,
    RtcCr,
    ExtiImr,
    ExtiRtsr,
    ExtiPr,
    RccCsr,
    RccApb1enr,
    RccBdcr,
    RccAhbenr,
    PwrCr,
    PwrCsr,
    SyscfgExticr1,
    GpioaModer,
    GpioaAfrl,
}

/// An interrupt line of the NVIC.
#[derive(Clone, Copy, Debug, PartialEq, Eq, Structural)]
pub enum Irq {
    /// RTC global interrupt (alarm), fed by EXTI line 17.
    Rtc,
    /// EXTI lines 0 and 1 (the button on PA0).
    Exti0To1,
}

/// A read-modify-write of a register: the bits of `clear` are cleared, then
/// the bits of `set` are set.
#[derive(Clone, Copy, Debug, PartialEq, Eq, Structural)]
pub struct Update {
    pub clear: u32,
    pub set: u32,
}

impl Update {
    /// The value written back when the register held `old`.
    pub open spec fn applied_to(self, old: u32) -> u32 {
        (old & !self.clear) | self.set
    }

    /// The value written back when the register held `old`.
    pub fn apply(&self, old: u32) -> (new: u32)
        ensures
            new == self.applied_to(old),
    {
        (old & !self.clear) | self.set
    }
}

/// One step of a register program.
#[derive(Clone, Copy, Debug, PartialEq, Eq, Structural)]
pub enum RegOp {
    /// Store the value in the register.
    Write(Register, u32),
    /// Read the register and store the update of what was read.
    Modify(Register, Update),
    /// Poll the register until all bits of the mask read as one.
    WaitUntilSet(Register, u32),
    /// Give the interrupt line a priority in the NVIC.
    SetPriority(Irq, u8),
    /// Unmask the interrupt line in the NVIC.
    EnableIrq(Irq),
    /// Mask the interrupt line in the NVIC.
    DisableIrq(Irq),
    /// Make the next wait-for-interrupt enter deep sleep (SCB SCR.SLEEPDEEP).
    SetSleepDeep,
}

// RTC write protection register: the keys that unlock and relock the RTC registers.
pub const WPR_UNLOCK_KEY_1: u32 = 0xCA;
pub const WPR_UNLOCK_KEY_2: u32 = 0x53;
pub const WPR_LOCK_KEY_1: u32 = 0xFE;
pub const WPR_LOCK_KEY_2: u32 = 0x64;

// RTC initialization and status register.
/// Alarm A write flag: alarm A may be changed.
pub const ISR_ALRAWF: u32 = 0x0000_0001;
/// Initialization flag: the calendar registers may be changed.
pub const ISR_INITF: u32 = 0x0000_0040;
/// Initialization mode request.
pub const ISR_INIT: u32 = 0x0000_0080;
/// Alarm A flag.
pub const ISR_ALRAF: u32 = 0x0000_0100;
/// The flags that a written zero clears (RSF, ALRAF, TSF, TSOVF, TAMP1F, TAMP2F):
/// a read-modify-write writes them as one so that it leaves them as they are.
pub const ISR_CLEARED_BY_ZERO: u32 = 0x0000_7920;

// RTC control register.
/// Alarm A enable.
pub const CR_ALRAE: u32 = 0x0000_0100;
/// Alarm A interrupt enable.
pub const CR_ALRAIE: u32 = 0x0000_1000;

// RTC time register and alarm A register: BCD fields of hours, minutes, seconds.
/// HT (20:21), HU (16:19), MNT (12:14), MNU (8:11), ST (4:6), SU (0:3).
pub const TIME_FIELDS: u32 = 0x003F_7F7F;
/// Alarm A seconds mask.
pub const ALRMAR_MSK1: u32 = 0x0000_0080;
/// Alarm A minutes mask.
pub const ALRMAR_MSK2: u32 = 0x0000_8000;
/// Alarm A hours mask.
pub const ALRMAR_MSK3: u32 = 0x0080_0000;
/// Alarm A date mask.
pub const ALRMAR_MSK4: u32 = 0x8000_0000;

// RTC prescaler register.
/// Synchronous prescaler factor, bits 0:14.
pub const PRER_PREDIV_S: u32 = 0x0000_7FFF;
/// Asynchronous prescaler factor, bits 16:22.
pub const PRER_PREDIV_A: u32 = 0x007F_0000;
/// Synchronous division by 0x137 + 1 = 312.
pub const PREDIV_S_VALUE: u32 = 0x137;
/// Asynchronous division by 0x7F + 1 = 128.
pub const PREDIV_A_VALUE: u32 = 0x7F;

// EXTI registers: lines 0 (button on PA0) and 17 (RTC alarm).
pub const EXTI_LINE_0: u32 = 0x0000_0001;
pub const EXTI_LINE_17: u32 = 0x0002_0000;
/// The pending bits of EXTI_PR, cleared by a written one: a read-modify-write
/// writes them as zero so that it clears only the line it names.
pub const EXTI_PR_CLEARED_BY_ONE: u32 = 0x000B_FFFF;

// RCC registers.
/// CSR: internal low-speed oscillator enable.
pub const RCC_CSR_LSION: u32 = 0x0000_0001;
/// CSR: internal low-speed oscillator ready.
pub const RCC_CSR_LSIRDY: u32 = 0x0000_0002;
/// APB1ENR: power interface clock enable.
pub const RCC_APB1ENR_PWREN: u32 = 0x1000_0000;
/// BDCR: RTC clock enable.
pub const RCC_BDCR_RTCEN: u32 = 0x0000_8000;
/// BDCR: RTC clock source selection, bits 8:9.
pub const RCC_BDCR_RTCSEL: u32 = 0x0000_0300;
/// BDCR: RTCSEL = 0b10, the LSI oscillator drives the RTC.
pub const RCC_BDCR_RTCSEL_LSI: u32 = 0x0000_0200;
/// AHBENR: GPIO port A clock enable.
pub const RCC_AHBENR_IOPAEN: u32 = 0x0002_0000;

// PWR registers.
/// CR: power-down deep sleep (standby).
pub const PWR_CR_PDDS: u32 = 0x0000_0002;
/// CR: clear the wake-up flag.
pub const PWR_CR_CWUF: u32 = 0x0000_0004;
/// CR: disable the backup domain write protection.
pub const PWR_CR_DBP: u32 = 0x0000_0100;
/// CSR: enable the WKUP1 pin (PA0).
pub const PWR_CSR_EWUP1: u32 = 0x0000_0100;

// GPIO port A.
/// MODER: mode of PA0, bits 0:1.
pub const GPIOA_MODER0: u32 = 0x0000_0003;
/// MODER: 0b10, alternate function mode.
pub const GPIOA_MODER0_ALTERNATE: u32 = 0x0000_0002;
/// AFRL: alternate function of PA0, bits 0:3.
pub const GPIOA_AFRL0: u32 = 0x0000_000F;
/// AFRL: alternate function 2.
pub const GPIOA_AFRL0_AF2: u32 = 0x0000_0002;

/// The update that sets the bits of `mask`.
pub open spec fn setting(mask: u32) -> Update {
    Update { clear: mask, set: mask }
}

/// The update that clears the bits of `mask`.
pub open spec fn clearing(mask: u32) -> Update {
    Update { clear: mask, set: 0 }
}

/// Whether the operation stores a value in `reg`.
pub open spec fn touches(op: RegOp, reg: Register) -> bool {
    match op {
        RegOp::Write(r, _) => r == reg,
        RegOp::Modify(r, _) => r == reg,
        _ => false,
    }
}

/// The value of `reg` after the operation, when it held `v` before.
pub open spec fn op_on_register(op: RegOp, reg: Register, v: u32) -> u32 {
    match op {
        RegOp::Write(r, x) => if r == reg {
            x
        } else {
            v
        },
        RegOp::Modify(r, u) => if r == reg {
            u.applied_to(v)
        } else {
            v
        },
        _ => v,
    }
}

/// The value of `reg` after the whole program, when it held `v` before (the
/// value the hardware keeps between the program's own writes is taken as is).
pub open spec fn register_after(ops: Seq<RegOp>, reg: Register, v: u32) -> u32
    decreases ops.len(),
{
    if ops.len() == 0 {
        v
    } else {
        op_on_register(ops.last(), reg, register_after(ops.drop_last(), reg, v))
    }
}

/// A program that never stores to `reg` leaves it as it was.
pub proof fn lemma_register_after_untouched(ops: Seq<RegOp>, reg: Register, v: u32)
    requires
        forall|i: int| 0 <= i < ops.len() ==> !touches(#[trigger] ops[i], reg),
    ensures
        register_after(ops, reg, v) == v,
    decreases ops.len(),
{
    if ops.len() > 0 {
        assert forall|i: int| 0 <= i < ops.drop_last().len() implies !touches(
            #[trigger] ops.drop_last()[i],
            reg,
        ) by {
            assert(ops.drop_last()[i] == ops[i]);
        }
        lemma_register_after_untouched(ops.drop_last(), reg, v);
        assert(!touches(ops[ops.len() - 1], reg));
    }
}

/// The value of `reg` after a program is decided by the last operation that
/// stores to it, applied to the value before that operation.
pub proof fn lemma_register_after_last_touch(ops: Seq<RegOp>, reg: Register, v: u32, k: int)
    requires
        0 <= k < ops.len(),
        forall|i: int| k < i < ops.len() ==> !touches(#[trigger] ops[i], reg),
    ensures
        register_after(ops, reg, v) == op_on_register(
            ops[k],
            reg,
            register_after(ops.subrange(0, k), reg, v),
        ),
    decreases ops.len(),
{
    if k == ops.len() - 1 {
        assert(ops.drop_last() =~= ops.subrange(0, k));
    } else {
        let d = ops.drop_last();
        assert forall|i: int| k < i < d.len() implies !touches(#[trigger] d[i], reg) by {
            assert(d[i] == ops[i]);
        }
        lemma_register_after_last_touch(d, reg, v, k);
        assert(d.subrange(0, k) =~= ops.subrange(0, k));
        assert(!touches(ops[ops.len() - 1], reg));
    }
}

/// Running two programs one after the other: the second starts from what the
/// first left in the register.
pub proof fn lemma_register_after_concat(a: Seq<RegOp>, b: Seq<RegOp>, reg: Register, v: u32)
    ensures
        register_after(a + b, reg, v) == register_after(b, reg, register_after(a, reg, v)),
    decreases b.len(),
{
    if b.len() == 0 {
        assert(a + b =~= a);
    } else {
        lemma_register_after_concat(a, b.drop_last(), reg, v);
        assert((a + b).drop_last() =~= a + b.drop_last());
        assert((a + b).last() == b.last());
    }
}

} // verus!
