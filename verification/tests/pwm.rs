use meloled::indicator::LedColor;
use meloled::pwm::{PwmConfig, RgbOutputs, TOP};

fn lit_hues(outputs: &RgbOutputs) -> usize {
    let duties: [(u16, u16); 3] = [
        (outputs.red.compare_b, outputs.red.top),
        (outputs.green.compare_a, outputs.green.top),
        (outputs.blue.compare_a, outputs.blue.top),
    ];
    duties.iter().filter(|(duty, top)| duty == top).count()
}

fn dark_hues(outputs: &RgbOutputs) -> usize {
    let duties: [u16; 3] = [outputs.red.compare_b, outputs.green.compare_a, outputs.blue.compare_a];
    duties.iter().filter(|duty| **duty == 0).count()
}

#[test]
fn period_is_half_the_counter_range() {
    assert_eq!(TOP, 0x8000);
    assert_eq!(TOP, 32768);
}

#[test]
fn new_config_has_no_duty() {
    let config: PwmConfig = PwmConfig::new(TOP);
    assert_eq!(config, PwmConfig { top: 0x8000, compare_a: 0, compare_b: 0 });
    let other: PwmConfig = PwmConfig::new(0);
    assert_eq!(other, PwmConfig { top: 0, compare_a: 0, compare_b: 0 });
    let widest: PwmConfig = PwmConfig::new(u16::MAX);
    assert_eq!(widest.top, 65535);
    assert_eq!(widest.compare_a, 0);
    assert_eq!(widest.compare_b, 0);
}

#[test]
fn red_is_red_alone() {
    let outputs: RgbOutputs = RgbOutputs::for_color(LedColor::Red);
    assert_eq!(outputs.red, PwmConfig { top: 0x8000, compare_a: 0, compare_b: 0x8000 });
    assert_eq!(outputs.green, PwmConfig { top: 0x8000, compare_a: 0, compare_b: 0 });
    assert_eq!(outputs.blue, PwmConfig { top: 0x8000, compare_a: 0, compare_b: 0 });
}

#[test]
fn yellow_is_red_and_green() {
    let outputs: RgbOutputs = RgbOutputs::for_color(LedColor::Yellow);
    assert_eq!(outputs.red, PwmConfig { top: 0x8000, compare_a: 0, compare_b: 0x8000 });
    assert_eq!(outputs.green, PwmConfig { top: 0x8000, compare_a: 0x8000, compare_b: 0 });
    assert_eq!(outputs.blue, PwmConfig { top: 0x8000, compare_a: 0, compare_b: 0 });
}

#[test]
fn blue_is_blue_alone() {
    let outputs: RgbOutputs = RgbOutputs::for_color(LedColor::Blue);
    assert_eq!(outputs.red, PwmConfig { top: 0x8000, compare_a: 0, compare_b: 0 });
    assert_eq!(outputs.green, PwmConfig { top: 0x8000, compare_a: 0, compare_b: 0 });
    assert_eq!(outputs.blue, PwmConfig { top: 0x8000, compare_a: 0x8000, compare_b: 0 });
}

#[test]
fn red_and_blue_light_one_hue() {
    for color in [LedColor::Red, LedColor::Blue] {
        let outputs: RgbOutputs = RgbOutputs::for_color(color);
        assert_eq!(lit_hues(&outputs), 1);
        assert_eq!(dark_hues(&outputs), 2);
    }
}

#[test]
fn yellow_lights_two_hues() {
    let outputs: RgbOutputs = RgbOutputs::for_color(LedColor::Yellow);
    assert_eq!(lit_hues(&outputs), 2);
    assert_eq!(dark_hues(&outputs), 1);
}

#[test]
fn no_colour_dims_a_hue() {
    for color in [LedColor::Red, LedColor::Yellow, LedColor::Blue] {
        let outputs: RgbOutputs = RgbOutputs::for_color(color);
        assert_eq!(lit_hues(&outputs) + dark_hues(&outputs), 3);
        assert!(lit_hues(&outputs) >= 1);
        for config in [outputs.red, outputs.green, outputs.blue] {
            assert!(config.compare_a <= config.top);
            assert!(config.compare_b <= config.top);
        }
    }
}

#[test]
fn show_replaces_the_colour_shown_before() {
    for before in [LedColor::Red, LedColor::Yellow, LedColor::Blue] {
        for color in [LedColor::Red, LedColor::Yellow, LedColor::Blue] {
            let mut outputs: RgbOutputs = RgbOutputs::for_color(before);
            outputs.show(color);
            assert_eq!(outputs, RgbOutputs::for_color(color));
        }
    }
}

#[test]
fn show_touches_the_three_duties_only() {
    let mut outputs: RgbOutputs = RgbOutputs {
        red: PwmConfig { top: 1000, compare_a: 7, compare_b: 9 },
        green: PwmConfig { top: 2000, compare_a: 11, compare_b: 13 },
        blue: PwmConfig { top: 3000, compare_a: 17, compare_b: 19 },
    };
    outputs.show(LedColor::Yellow);
    assert_eq!(outputs.red, PwmConfig { top: 1000, compare_a: 7, compare_b: 0x8000 });
    assert_eq!(outputs.green, PwmConfig { top: 2000, compare_a: 0x8000, compare_b: 13 });
    assert_eq!(outputs.blue, PwmConfig { top: 3000, compare_a: 0, compare_b: 19 });
    outputs.show(LedColor::Blue);
    assert_eq!(outputs.red, PwmConfig { top: 1000, compare_a: 7, compare_b: 0 });
    assert_eq!(outputs.green, PwmConfig { top: 2000, compare_a: 0, compare_b: 13 });
    assert_eq!(outputs.blue, PwmConfig { top: 3000, compare_a: 0x8000, compare_b: 19 });
    outputs.show(LedColor::Red);
    assert_eq!(outputs.red, PwmConfig { top: 1000, compare_a: 7, compare_b: 0x8000 });
    assert_eq!(outputs.green, PwmConfig { top: 2000, compare_a: 0, compare_b: 13 });
    assert_eq!(outputs.blue, PwmConfig { top: 3000, compare_a: 0, compare_b: 19 });
}
