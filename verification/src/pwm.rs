//! PWM settings of the three hues of the indicator.

use crate::indicator::LedColor;
use vstd::prelude::*;

verus! {

/// Counting period of every PWM slice that drives the indicator. A duty of
/// `TOP` is full; a duty of 0 is none.
pub const TOP: u16 = 0x8000;

/// Settings of one PWM slice: its counting period and the duty threshold of
/// each of its two sub-channels.
#[derive(Clone, Copy, PartialEq, Eq, Debug, Structural)]
pub struct PwmConfig {
    pub top: u16,
    pub compare_a: u16,
    pub compare_b: u16,
}

impl PwmConfig {
    /// No duty exceeds the period.
    pub open spec fn wf(self) -> bool {
        self.compare_a <= self.top && self.compare_b <= self.top
    }

    /// A slice that counts to `top` with both sub-channels off.
    pub fn new(top: u16) -> (config: PwmConfig)
        ensures
            config == (PwmConfig { top, compare_a: 0, compare_b: 0 }),
            config.wf(),
    {
        PwmConfig { top, compare_a: 0, compare_b: 0 }
    }
}

/// Settings of the three slices behind the indicator. Red hangs on
/// sub-channel B of its slice, green and blue on sub-channel A of theirs; the
/// other sub-channel of each slice drives nothing.
#[derive(Clone, Copy, PartialEq, Eq, Debug, Structural)]
pub struct RgbOutputs {
    pub red: PwmConfig,
    pub green: PwmConfig,
    pub blue: PwmConfig,
}

/// Duty of the red hue while the indicator shows `color`.
pub open spec fn red_duty_for(color: LedColor) -> u16 {
    match color {
        LedColor::Red => TOP,
        LedColor::Yellow => TOP,
        LedColor::Blue => 0,
    }
}

/// Duty of the green hue while the indicator shows `color`.
pub open spec fn green_duty_for(color: LedColor) -> u16 {
    match color {
        LedColor::Red => 0,
        LedColor::Yellow => TOP,
        LedColor::Blue => 0,
    }
}

/// Duty of the blue hue while the indicator shows `color`.
pub open spec fn blue_duty_for(color: LedColor) -> u16 {
    match color {
        LedColor::Red => 0,
        LedColor::Yellow => 0,
        LedColor::Blue => TOP,
    }
}

/// 1 where `duty` is the full duty of a slice counting to `top`, else 0.
pub open spec fn lit(duty: u16, top: u16) -> nat {
    if duty == top {
        1
    } else {
        0
    }
}

/// 1 where `duty` is no duty at all, else 0.
pub open spec fn dark(duty: u16) -> nat {
    if duty == 0 {
        1
    } else {
        0
    }
}

impl RgbOutputs {
    /// Duty of the red hue.
    pub open spec fn red_duty(self) -> u16 {
        self.red.compare_b
    }

    /// Duty of the green hue.
    pub open spec fn green_duty(self) -> u16 {
        self.green.compare_a
    }

    /// Duty of the blue hue.
    pub open spec fn blue_duty(self) -> u16 {
        self.blue.compare_a
    }

    /// Every slice counts to [`TOP`], and no duty exceeds it.
    pub open spec fn wf(self) -> bool {
        &&& self.red.top == TOP
        &&& self.green.top == TOP
        &&& self.blue.top == TOP
        &&& self.red.wf()
        &&& self.green.wf()
        &&& self.blue.wf()
    }

    /// Number of hues at full duty.
    pub open spec fn lit_hues(self) -> nat {
        lit(self.red_duty(), self.red.top) + lit(self.green_duty(), self.green.top) + lit(
            self.blue_duty(),
            self.blue.top,
        )
    }

    /// Number of hues at no duty.
    pub open spec fn dark_hues(self) -> nat {
        dark(self.red_duty()) + dark(self.green_duty()) + dark(self.blue_duty())
    }

    /// The settings that show `color` and nothing else: the unused
    /// sub-channels are off.
    pub open spec fn solid(color: LedColor) -> RgbOutputs {
        RgbOutputs {
            red: PwmConfig { top: TOP, compare_a: 0, compare_b: red_duty_for(color) },
            green: PwmConfig { top: TOP, compare_a: green_duty_for(color), compare_b: 0 },
            blue: PwmConfig { top: TOP, compare_a: blue_duty_for(color), compare_b: 0 },
        }
    }

    /// These settings with the duty of each hue set for `color`, and all else
    /// as it was.
    pub open spec fn showing(self, color: LedColor) -> RgbOutputs {
        RgbOutputs {
            red: PwmConfig { compare_b: red_duty_for(color), ..self.red },
            green: PwmConfig { compare_a: green_duty_for(color), ..self.green },
            blue: PwmConfig { compare_a: blue_duty_for(color), ..self.blue },
        }
    }

    /// The settings that show `color`.
    pub fn for_color(color: LedColor) -> (outputs: RgbOutputs)
        ensures
            outputs == RgbOutputs::solid(color),
            outputs.wf(),
    {
        let mut outputs = RgbOutputs {
            red: PwmConfig::new(TOP),
            green: PwmConfig::new(TOP),
            blue: PwmConfig::new(TOP),
        };
        outputs.show(color);
        outputs
    }

    /// Sets the duty of each hue for `color`: red and yellow need red at
    /// full duty, yellow needs green as well, blue needs blue alone.
    pub fn show(&mut self, color: LedColor)
        ensures
            *final(self) == old(self).showing(color),
            old(self).wf() ==> final(self).wf(),
    {
        match color {
            LedColor::Red => {
                self.red.compare_b = TOP;
                self.green.compare_a = 0;
                self.blue.compare_a = 0;
            },
            LedColor::Yellow => {
                self.red.compare_b = TOP;
                self.green.compare_a = TOP;
                self.blue.compare_a = 0;
            },
            LedColor::Blue => {
                self.red.compare_b = 0;
                self.green.compare_a = 0;
                self.blue.compare_a = TOP;
            },
        }
    }
}

/// Whatever colour is shown, no hue is dimmed: each is at full duty or at
/// none, at least one is lit, and the settings are well formed. Showing a
/// colour on settings that showed another gives the settings of that colour
/// alone.
pub proof fn lemma_no_partial_duty(color: LedColor, before: LedColor)
    ensures
        RgbOutputs::solid(color).wf(),
        RgbOutputs::solid(color).lit_hues() + RgbOutputs::solid(color).dark_hues() == 3,
        RgbOutputs::solid(color).lit_hues() >= 1,
        RgbOutputs::solid(before).showing(color) == RgbOutputs::solid(color),
{
}

/// Red and blue are shown by one hue at full duty and two at none.
pub proof fn lemma_one_hue_lit(color: LedColor)
    requires
        color != LedColor::Yellow,
    ensures
        RgbOutputs::solid(color).lit_hues() == 1,
        RgbOutputs::solid(color).dark_hues() == 2,
        lit(RgbOutputs::solid(color).red_duty(), TOP) == 1 <==> color == LedColor::Red,
        lit(RgbOutputs::solid(color).blue_duty(), TOP) == 1 <==> color == LedColor::Blue,
{
}

/// Yellow is shown by red and green at full duty together, and blue at none.
pub proof fn lemma_yellow_lights_two()
    ensures
        RgbOutputs::solid(LedColor::Yellow).red_duty() == TOP,
        RgbOutputs::solid(LedColor::Yellow).green_duty() == TOP,
        RgbOutputs::solid(LedColor::Yellow).blue_duty() == 0,
        RgbOutputs::solid(LedColor::Yellow).lit_hues() == 2,
        RgbOutputs::solid(LedColor::Yellow).dark_hues() == 1,
{
}

} // verus!
