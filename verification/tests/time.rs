use stm32_f0_rust::time::Time;

fn t(hours: u8, minutes: u8, seconds: u8) -> Time {
    Time { hours, minutes, seconds }
}

#[test]
fn add_seconds_without_carry() {
    let mut x = t(10, 20, 30);
    x.add_seconds(15);
    assert_eq!(x, t(10, 20, 45));
}

#[test]
fn add_seconds_carries_into_minutes() {
    let mut x = t(10, 20, 50);
    x.add_seconds(15);
    assert_eq!(x, t(10, 21, 5));
}

#[test]
fn add_seconds_carries_through_midnight() {
    let mut x = t(23, 59, 50);
    x.add_seconds(15);
    assert_eq!(x, t(0, 0, 5));
}

#[test]
fn add_seconds_wraps_only_once() {
    let mut x = t(0, 0, 59);
    x.add_seconds(100);
    assert_eq!(x, t(0, 1, 99));
}

#[test]
fn add_minutes_carries_into_hours() {
    let mut x = t(7, 45, 0);
    x.add_minutes(30);
    assert_eq!(x, t(8, 15, 0));
}

#[test]
fn add_minutes_exactly_sixty_wraps() {
    let mut x = t(7, 0, 12);
    x.add_minutes(60);
    assert_eq!(x, t(8, 0, 12));
}

#[test]
fn add_hours_wraps_at_24() {
    let mut x = t(22, 5, 6);
    x.add_hours(3);
    assert_eq!(x, t(1, 5, 6));
}

#[test]
fn add_hours_below_24() {
    let mut x = t(1, 2, 3);
    x.add_hours(22);
    assert_eq!(x, t(23, 2, 3));
}

fn seconds_of_day(x: Time) -> u32 {
    x.hours as u32 * 3600 + x.minutes as u32 * 60 + x.seconds as u32
}

#[test]
fn add_seconds_is_clock_addition() {
    let start = t(23, 59, 30);
    let mut x = start;
    x.add_seconds(45);
    assert_eq!(seconds_of_day(x), (seconds_of_day(start) + 45) % 86400);
}

#[test]
fn add_minutes_is_clock_addition() {
    let start = t(23, 30, 10);
    let mut x = start;
    x.add_minutes(59);
    assert_eq!(seconds_of_day(x), (seconds_of_day(start) + 59 * 60) % 86400);
}

#[test]
fn add_hours_is_clock_addition() {
    let start = t(20, 30, 10);
    let mut x = start;
    x.add_hours(10);
    assert_eq!(seconds_of_day(x), (seconds_of_day(start) + 10 * 3600) % 86400);
}
