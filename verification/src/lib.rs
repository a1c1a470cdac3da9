//! Alarm-clock firmware logic for an STM32F0 board: wall-clock arithmetic,
//! the register programs that drive the real-time clock, the wake-up button
//! and the standby mode, and the state machine that the button and alarm
//! interrupts run.
pub mod button;
pub mod handlers;
pub mod registers;
pub mod rtc;
pub mod time;
