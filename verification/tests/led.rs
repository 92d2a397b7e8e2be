use headtrack::tasks::led_task::{wheel, Color, LedTask, LED_BRIGHTNESS};
use headtrack::tasks::SECOND_CORE_STACK_WORDS;

#[test]
fn light_settings_are_fixed() {
    assert_eq!(LED_BRIGHTNESS, 32);
    assert_eq!(SECOND_CORE_STACK_WORDS, 4096);
}

#[test]
fn wheel_starts_and_ends_at_red() {
    assert_eq!(wheel(0), Color { r: 255, g: 0, b: 0 });
    assert_eq!(wheel(255), Color { r: 255, g: 0, b: 0 });
}

#[test]
fn wheel_passes_green_and_blue() {
    assert_eq!(wheel(85), Color { r: 0, g: 255, b: 0 });
    assert_eq!(wheel(170), Color { r: 0, g: 0, b: 255 });
    assert_eq!(wheel(171), Color { r: 3, g: 0, b: 252 });
    assert_eq!(wheel(100), Color { r: 0, g: 210, b: 45 });
    assert_eq!(wheel(1), Color { r: 252, g: 3, b: 0 });
    assert_eq!(wheel(84), Color { r: 3, g: 252, b: 0 });
    assert_eq!(wheel(86), Color { r: 0, g: 252, b: 3 });
    assert_eq!(wheel(200), Color { r: 90, g: 0, b: 165 });
}

#[test]
fn wheel_colours_always_add_up_to_full() {
    for pos in 0..=255u8 {
        let color = wheel(pos);
        assert_eq!(color.r as u16 + color.g as u16 + color.b as u16, 255);
        assert!(color.r == 0 || color.g == 0 || color.b == 0);
    }
}

#[test]
fn light_does_not_change_before_its_period_is_over() {
    let mut task = LedTask::new(0);
    assert_eq!(task.step(0), None);
    assert_eq!(task.step(19_999), None);
}

#[test]
fn light_steps_round_the_wheel_at_reduced_brightness() {
    let mut task = LedTask::new(0);
    // position 1: (252, 3, 0), each times 33 and divided by 256
    assert_eq!(task.step(20_000), Some(Color { r: 32, g: 0, b: 0 }));
    assert_eq!(task.step(39_999), None);
    // position 2: (249, 6, 0)
    assert_eq!(task.step(40_000), Some(Color { r: 32, g: 0, b: 0 }));
    // position 3: (246, 9, 0)
    assert_eq!(task.step(60_000), Some(Color { r: 31, g: 1, b: 0 }));
}

#[test]
fn dimmed_colour_follows_the_wheel_all_the_way_round() {
    let mut task = LedTask::new(0);
    let mut now = 0u64;
    for step in 1..=300u32 {
        now += 20_000;
        let shown = task.step(now).unwrap();
        let full = wheel((step % 256) as u8);
        let expected = Color {
            r: (full.r as u16 * 33 / 256) as u8,
            g: (full.g as u16 * 33 / 256) as u8,
            b: (full.b as u16 * 33 / 256) as u8,
        };
        assert_eq!(shown, expected);
        assert!(shown.r <= 32 && shown.g <= 32 && shown.b <= 32);
    }
}

#[test]
fn light_cadence_holds_when_the_counter_wraps() {
    let mut task = LedTask::new(u64::MAX - 9_999);
    assert_eq!(task.step(u64::MAX), None);
    assert_eq!(task.step(9_999), None);
    assert!(task.step(10_000).is_some());
    assert_eq!(task.step(29_999), None);
    assert!(task.step(30_000).is_some());
}
