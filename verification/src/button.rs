//! The wake-up button on PA0: its interrupt routing and acknowledgement.
use vstd::prelude::*;
use crate::registers::{
    clearing, setting, Irq, RegOp, Register, Update, EXTI_LINE_0, EXTI_PR_CLEARED_BY_ONE,
    GPIOA_AFRL0, GPIOA_AFRL0_AF2, GPIOA_MODER0, GPIOA_MODER0_ALTERNATE, PWR_CSR_EWUP1,
    RCC_AHBENR_IOPAEN,
};

verus! {

/// Routes PA0 to EXTI line 0 on a rising edge, clocks port A, puts PA0 in
/// alternate function 2, gives the EXTI0_1 interrupt priority 1 and enables
/// it, and lets PA0 (WKUP1) wake the chip from standby.
pub open spec fn button_program() -> Seq<RegOp> {
    seq![
        RegOp::Write(Register::SyscfgExticr1, 0),
        RegOp::Modify(Register::ExtiRtsr, setting(EXTI_LINE_0)),
        RegOp::Modify(Register::ExtiImr, setting(EXTI_LINE_0)),
        RegOp::Modify(Register::RccAhbenr, setting(RCC_AHBENR_IOPAEN)),
        RegOp::Modify(Register::GpioaModer, Update { clear: GPIOA_MODER0, set: GPIOA_MODER0_ALTERNATE }),
        RegOp::Modify(Register::GpioaAfrl, Update { clear: GPIOA_AFRL0, set: GPIOA_AFRL0_AF2 }),
        RegOp::SetPriority(Irq::Exti0To1, 1),
        RegOp::EnableIrq(Irq::Exti0To1),
        RegOp::Modify(Register::PwrCsr, setting(PWR_CSR_EWUP1)),
    ]
}

/// The update of the EXTI pending register that clears line 0 alone.
pub open spec fn button_line_clear_update() -> Update {
    Update { clear: EXTI_PR_CLEARED_BY_ONE, set: EXTI_LINE_0 }
}

/// Whether the operation touches a register of GPIO port A.
pub open spec fn touches_port_a(op: RegOp) -> bool {
    ||| op matches RegOp::Write(Register::GpioaModer, _)
    ||| op matches RegOp::Write(Register::GpioaAfrl, _)
    ||| op matches RegOp::Modify(Register::GpioaModer, _)
    ||| op matches RegOp::Modify(Register::GpioaAfrl, _)
}

/// The button on PA0.
pub struct Button {}

impl Button {
    pub fn new() -> Button {
        Button {  }
    }

    /// The register program that sets the button up as an interrupt and wake-up source.
    pub fn configure() -> (ops: Vec<RegOp>)
        ensures
            ops@ == button_program(),
    {
        let mut ops = Vec::new();
        ops.push(RegOp::Write(Register::SyscfgExticr1, 0));
        ops.push(RegOp::Modify(Register::ExtiRtsr, Update { clear: EXTI_LINE_0, set: EXTI_LINE_0 }));
        ops.push(RegOp::Modify(Register::ExtiImr, Update { clear: EXTI_LINE_0, set: EXTI_LINE_0 }));
        ops.push(
            RegOp::Modify(
                Register::RccAhbenr,
                Update { clear: RCC_AHBENR_IOPAEN, set: RCC_AHBENR_IOPAEN },
            ),
        );
        ops.push(
            RegOp::Modify(
                Register::GpioaModer,
                Update { clear: GPIOA_MODER0, set: GPIOA_MODER0_ALTERNATE },
            ),
        );
        ops.push(
            RegOp::Modify(Register::GpioaAfrl, Update { clear: GPIOA_AFRL0, set: GPIOA_AFRL0_AF2 }),
        );
        ops.push(RegOp::SetPriority(Irq::Exti0To1, 1));
        ops.push(RegOp::EnableIrq(Irq::Exti0To1));
        ops.push(
            RegOp::Modify(Register::PwrCsr, Update { clear: PWR_CSR_EWUP1, set: PWR_CSR_EWUP1 }),
        );
        ops
    }

    /// Marks the button interrupt as handled: clears the pending EXTI line 0.
    pub fn clear_pending_interrupt(&self) -> (op: RegOp)
        ensures
            op == RegOp::Modify(Register::ExtiPr, button_line_clear_update()),
    {
        RegOp::Modify(Register::ExtiPr, Update { clear: EXTI_PR_CLEARED_BY_ONE, set: EXTI_LINE_0 })
    }
}

/// Port A gets its clock before PA0 is reconfigured: the clock enable is the
/// fourth step of the button program and every step that touches port A comes
/// after it.
pub proof fn lemma_port_a_clocked_before_use()
    ensures
        button_program()[3] == RegOp::Modify(Register::RccAhbenr, setting(RCC_AHBENR_IOPAEN)),
        forall|i: int|
            0 <= i < button_program().len() && touches_port_a(#[trigger] button_program()[i]) ==> 3
                < i,
{
    assert forall|i: int|
        0 <= i < button_program().len() && touches_port_a(#[trigger] button_program()[i]) implies 3
        < i by {
        if i <= 3 {
            assert(!touches_port_a(button_program()[i]));
        }
    }
}

/// Acknowledging the button writes a one to EXTI line 0 and a zero to every
/// other pending line, so that no other pending interrupt is cleared.
pub proof fn lemma_button_acknowledge_clears_line_0_only(pr: u32)
    ensures
        button_line_clear_update().applied_to(pr) & EXTI_PR_CLEARED_BY_ONE == EXTI_LINE_0,
{
    assert(((pr & !0x000B_FFFFu32) | 0x1u32) & 0x000B_FFFFu32 == 0x1u32) by (bit_vector);
}

} // verus!
