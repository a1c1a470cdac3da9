# stm32_f0_rust

Alarm-clock firmware for an STM32F051 board, split into a verified library
and a thin firmware binary.

`src/` (verified with Verus):

- `time.rs` — `Time` and its carry arithmetic (`add_seconds`, `add_minutes`,
  `add_hours`), with proofs that on a valid time they add on the 24-hour clock.
- `registers.rs` — the registers and bit layouts the firmware uses, and
  `RegOp`, one step of a register program (write, read-modify-write, poll,
  NVIC and SCB operations).
- `rtc.rs` — the real-time clock: the programs that select its clock, set the
  calendar time and alarm A and acknowledge an alarm, and the BCD decoding of
  the time register; proofs that a time written reads back unchanged and that
  every change happens with the write protection lifted.
- `button.rs` — the wake-up button on PA0: its interrupt and wake-up set-up.
- `handlers.rs` — the button and alarm interrupt handlers as step functions
  from mode and press to next mode and actions, the alarm arming and disarming
  programs, and the standby set-up.

`app/` is the firmware: it owns the peripherals, reads the button, plays the
tunes on the buzzer and runs the register programs on the hardware.
