//! Battery telemetry: scaling a raw sensor sample to a percentage and the
//! single-value cell through which the publisher hands it to readers.

use vstd::prelude::*;

verus! {

/// Raw reading of an empty battery with the stock voltage divider.
pub const MIN_BATTERY: u32 = 2620;

/// Raw reading of a full battery with the stock voltage divider.
pub const MAX_BATTERY: u32 = 3440;

/// Seconds between two samples of the battery sensor.
pub const SAMPLE_PERIOD_SECS: u64 = 60;

/// The level a cell reports before the first sample has been published.
pub const INITIAL_LEVEL: u8 = 100;

/// Percentage that a raw reading stands for between the thresholds `min` and
/// `max`: 0 at or below `min`, 100 at or above `max`, and the linear share
/// of the span in between, rounded down.
pub open spec fn spec_percent(raw: int, min: int, max: int) -> int {
    if raw <= min {
        0
    } else if raw >= max {
        100
    } else {
        (100 * (raw - min)) / (max - min)
    }
}

/// The scaled percentage never leaves `0..=100`, whatever the raw reading.
pub proof fn lemma_percent_in_range(raw: int, min: int, max: int)
    requires
        min < max,
    ensures
        0 <= spec_percent(raw, min, max) <= 100,
{
    if min < raw && raw < max {
        let span = max - min;
        let num = 100 * (raw - min);
        assert(0 <= num / span <= 100) by (nonlinear_arith)
            requires
                0 < span,
                0 <= num,
                num <= 100 * span,
        ;
    }
}

/// A higher raw reading never yields a lower percentage.
pub proof fn lemma_percent_monotonic(low: int, high: int, min: int, max: int)
    requires
        min < max,
        low <= high,
    ensures
        spec_percent(low, min, max) <= spec_percent(high, min, max),
{
    lemma_percent_in_range(low, min, max);
    lemma_percent_in_range(high, min, max);
    if min < low && high < max {
        let span = max - min;
        let a = 100 * (low - min);
        let b = 100 * (high - min);
        assert(a / span <= b / span) by (nonlinear_arith)
            requires
                0 < span,
                a <= b,
        ;
    }
}

/// Raw thresholds between which a sensor reading is rescaled.
#[derive(Clone, Copy, Debug)]
pub struct Calibration {
    min: u32,
    max: u32,
}

impl Calibration {
    #[verifier::type_invariant]
    spec fn ordered(self) -> bool {
        self.min < self.max
    }

    /// Raw reading that stands for 0 %.
    pub closed spec fn spec_min(self) -> u32 {
        self.min
    }

    /// Raw reading that stands for 100 %.
    pub closed spec fn spec_max(self) -> u32 {
        self.max
    }

    /// Thresholds `min` and `max`; `None` unless `min` is below `max`.
    pub fn new(min: u32, max: u32) -> (cal: Option<Calibration>)
        ensures
            cal is Some <==> min < max,
            cal matches Some(c) ==> c.spec_min() == min && c.spec_max() == max,
    {
        if min < max {
            Some(Calibration { min, max })
        } else {
            None
        }
    }

    /// The thresholds of the stock hardware.
    pub fn stock() -> (cal: Calibration)
        ensures
            cal.spec_min() == MIN_BATTERY,
            cal.spec_max() == MAX_BATTERY,
    {
        Calibration { min: MIN_BATTERY, max: MAX_BATTERY }
    }

    pub fn min(&self) -> (min: u32)
        ensures
            min == self.spec_min(),
            min < self.spec_max(),
    {
        proof {
            use_type_invariant(self);
        }
        self.min
    }

    pub fn max(&self) -> (max: u32)
        ensures
            max == self.spec_max(),
            self.spec_min() < max,
    {
        proof {
            use_type_invariant(self);
        }
        self.max
    }
}

/// Rescales one raw sample into a percentage, clamped at both ends.
pub fn battery_percent(raw: u32, calibration: &Calibration) -> (percent: u8)
    ensures
        percent == spec_percent(raw as int, calibration.spec_min() as int, calibration.spec_max() as int),
        percent <= 100,
{
    let min = calibration.min();
    let max = calibration.max();
    proof {
        lemma_percent_in_range(raw as int, min as int, max as int);
    }
    if raw <= min {
        0
    } else if raw >= max {
        100
    } else {
        let span: u64 = (max - min) as u64;
        let above: u64 = (raw - min) as u64;
        let scaled: u64 = (100 * above) / span;
        scaled as u8
    }
}

/// The shared cell that holds the latest published battery level.
///
/// Only [`BatteryCell::publish_sample`] writes it, so the level it holds is
/// always a percentage.
#[derive(Debug)]
pub struct BatteryCell {
    level: u8,
}

impl View for BatteryCell {
    type V = u8;

    /// The level most recently published.
    closed spec fn view(&self) -> u8 {
        self.level
    }
}

impl BatteryCell {
    #[verifier::type_invariant]
    spec fn is_percentage(self) -> bool {
        self.level <= 100
    }

    /// A cell that reports a full battery until the first sample arrives.
    pub fn new() -> (cell: BatteryCell)
        ensures
            cell@ == INITIAL_LEVEL,
    {
        BatteryCell { level: INITIAL_LEVEL }
    }

    /// Scales `raw` and publishes the result, replacing the previous level.
    pub fn publish_sample(&mut self, raw: u32, calibration: &Calibration) -> (level: u8)
        ensures
            level == spec_percent(raw as int, calibration.spec_min() as int, calibration.spec_max() as int),
            level <= 100,
            final(self)@ == level,
    {
        let level = battery_percent(raw, calibration);
        self.level = level;
        level
    }
}

/// The battery level most recently published into `cell`.
pub fn read_battery(cell: &BatteryCell) -> (level: u8)
    ensures
        level == cell@,
        level <= 100,
{
    proof {
        use_type_invariant(cell);
    }
    cell.level
}

} // verus!
