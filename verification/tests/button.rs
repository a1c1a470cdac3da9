use stm32_f0_rust::button::Button;
use stm32_f0_rust::registers::{Irq, RegOp, Register, Update};

#[test]
fn configure_program() {
    assert_eq!(
        Button::configure(),
        vec![
            RegOp::Write(Register::SyscfgExticr1, 0),
            RegOp::Modify(Register::ExtiRtsr, Update { clear: 1, set: 1 }),
            RegOp::Modify(Register::ExtiImr, Update { clear: 1, set: 1 }),
            RegOp::Modify(Register::RccAhbenr, Update { clear: 0x2_0000, set: 0x2_0000 }),
            RegOp::Modify(Register::GpioaModer, Update { clear: 3, set: 2 }),
            RegOp::Modify(Register::GpioaAfrl, Update { clear: 0xF, set: 2 }),
            RegOp::SetPriority(Irq::Exti0To1, 1),
            RegOp::EnableIrq(Irq::Exti0To1),
            RegOp::Modify(Register::PwrCsr, Update { clear: 0x100, set: 0x100 }),
        ]
    );
}

#[test]
fn port_a_clocked_before_use() {
    let ops = Button::configure();
    let clock = ops
        .iter()
        .position(|op| matches!(op, RegOp::Modify(Register::RccAhbenr, _)))
        .unwrap();
    for (i, op) in ops.iter().enumerate() {
        if matches!(op, RegOp::Modify(Register::GpioaModer, _) | RegOp::Modify(Register::GpioaAfrl, _)) {
            assert!(clock < i);
        }
    }
}

#[test]
fn clear_pending_interrupt_clears_line_0_only() {
    let op = Button::new().clear_pending_interrupt();
    assert_eq!(op, RegOp::Modify(Register::ExtiPr, Update { clear: 0xB_FFFF, set: 1 }));
    if let RegOp::Modify(_, u) = op {
        assert_eq!(u.apply(0x000B_FFFF), 1);
        assert_eq!(u.apply(0xFFF0_0000), 0xFFF0_0001);
    }
}
