use vstd::prelude::*;

verus! {

/// Peak power must reach this share of rated power, in percent, for a device
/// to count as operational.
pub const PERFORMANCE_THRESHOLD: u32 = 70;

/// Efficiency at or above this value keeps an operational device at low risk.
pub const LOW_RISK_EFFICIENCY: u32 = 90;

/// Efficiency at or above this value keeps an operational device at medium
/// risk; anything below it, or any non-operational device, is high risk.
pub const MEDIUM_RISK_EFFICIENCY: u32 = 75;

/// How many readings the rolling per-device history retains.
pub const HISTORY_CAPACITY: usize = 24;

/// One immutable telemetry snapshot from an inverter. All fields are
/// fixed-point-scaled integers; none is range-validated beyond its type
/// width, so out-of-range percentages are recorded as given.
#[derive(Clone, Copy, Debug, PartialEq, Eq, Structural)]
pub struct InverterData {
    pub timestamp: u64,
    /// Wh produced over the reporting hour.
    pub energy_produced: u64,
    /// W.
    pub peak_power: u32,
    /// V.
    pub dc_voltage: u32,
    /// mA.
    pub dc_current: u32,
    /// V.
    pub ac_voltage: u32,
    /// mHz.
    pub ac_frequency: u32,
    /// Degrees Celsius times ten; the one signed measurement.
    pub internal_temp: i32,
    /// Scaled percentage.
    pub efficiency: u32,
    /// Scaled percentage.
    pub power_factor: u32,
    /// Wh.
    pub daily_yield: u64,
    /// kWh.
    pub total_yield: u64,
    /// Hours.
    pub operating_hours: u32,
}

/// One immutable telemetry snapshot from an energy meter.
#[derive(Clone, Copy, Debug, PartialEq, Eq, Structural)]
pub struct MeterData {
    pub timestamp: u64,
    /// Wh consumed over the reporting hour.
    pub energy_consumed: u64,
    /// W.
    pub peak_power: u32,
    /// V.
    pub voltage: u32,
    /// mA.
    pub current: u32,
    /// mHz.
    pub frequency: u32,
    /// Scaled percentage.
    pub power_factor: u32,
    /// Wh.
    pub daily_consumption: u64,
    /// kWh.
    pub total_consumption: u64,
    /// Hours.
    pub operating_hours: u32,
}

/// Discretized risk classification derived from operational status and the
/// latest reported efficiency.
#[derive(Clone, Copy, Debug, PartialEq, Eq, Structural)]
pub enum RiskLevel {
    Low,
    Medium,
    High,
}

/// The all-zero placeholder reading a device carries from registration until
/// its first accepted submission, stamped with the registration time.
pub open spec fn zero_reading(now: u64) -> InverterData {
    InverterData {
        timestamp: now,
        energy_produced: 0,
        peak_power: 0,
        dc_voltage: 0,
        dc_current: 0,
        ac_voltage: 0,
        ac_frequency: 0,
        internal_temp: 0,
        efficiency: 0,
        power_factor: 0,
        daily_yield: 0,
        total_yield: 0,
        operating_hours: 0,
    }
}

/// A device is operational when its peak power reaches at least
/// `PERFORMANCE_THRESHOLD` percent of its rated power, i.e. when the
/// performance ratio `peak_power / rated_power` is at least 70%.
pub open spec fn spec_operational(peak_power: u32, rated_power: u32) -> bool {
    100 * (peak_power as int) >= (PERFORMANCE_THRESHOLD as int) * (rated_power as int)
}

/// Decides operational status from the latest peak power against the rated
/// power of the device.
pub fn operational_status(peak_power: u32, rated_power: u32) -> (operational: bool)
    ensures
        operational == spec_operational(peak_power, rated_power),
{
    100u64 * (peak_power as u64) >= 70u64 * (rated_power as u64)
}

/// Risk is low for an operational device with efficiency at or above
/// `LOW_RISK_EFFICIENCY`, medium for an operational device at or above
/// `MEDIUM_RISK_EFFICIENCY`, and high otherwise — including every
/// non-operational device, whatever its efficiency.
pub open spec fn spec_risk_level(operational: bool, efficiency: u32) -> RiskLevel {
    if operational && efficiency >= LOW_RISK_EFFICIENCY {
        RiskLevel::Low
    } else if operational && efficiency >= MEDIUM_RISK_EFFICIENCY {
        RiskLevel::Medium
    } else {
        RiskLevel::High
    }
}

/// Classifies risk from operational status and the latest reported
/// efficiency.
pub fn risk_level_for(operational: bool, efficiency: u32) -> (risk: RiskLevel)
    ensures
        risk == spec_risk_level(operational, efficiency),
{
    if operational && efficiency >= LOW_RISK_EFFICIENCY {
        RiskLevel::Low
    } else if operational && efficiency >= MEDIUM_RISK_EFFICIENCY {
        RiskLevel::Medium
    } else {
        RiskLevel::High
    }
}

/// What appending one reading to a bounded history yields: the reading goes
/// on the back, and when the window is already full the oldest entry falls
/// off the front.
pub open spec fn push_evicting(history: Seq<InverterData>, reading: InverterData) -> Seq<
    InverterData,
> {
    if history.len() < HISTORY_CAPACITY {
        history.push(reading)
    } else {
        history.subrange(1, history.len() as int).push(reading)
    }
}

/// A bounded sliding window of accepted readings, oldest first: appending to
/// a full window evicts the oldest entry, so the length never exceeds
/// `HISTORY_CAPACITY`.
pub struct ReadingHistory {
    entries: Vec<InverterData>,
}

impl View for ReadingHistory {
    type V = Seq<InverterData>;

    closed spec fn view(&self) -> Seq<InverterData> {
        self.entries@
    }
}

impl ReadingHistory {
    /// The window never holds more than `HISTORY_CAPACITY` readings.
    pub open spec fn wf(&self) -> bool {
        self@.len() <= HISTORY_CAPACITY
    }

    /// Creates an empty history window.
    pub fn new() -> (history: ReadingHistory)
        ensures
            history@ == Seq::<InverterData>::empty(),
            history.wf(),
    {
        ReadingHistory { entries: Vec::new() }
    }

    /// How many readings the window currently holds.
    pub fn len(&self) -> (n: usize)
        ensures
            n == self@.len(),
    {
        self.entries.len()
    }

    /// Appends a reading, evicting the oldest entry if the window is full.
    pub fn push(&mut self, reading: InverterData)
        requires
            old(self).wf(),
        ensures
            final(self)@ == push_evicting(old(self)@, reading),
            final(self).wf(),
    {
        if self.entries.len() >= HISTORY_CAPACITY {
            self.entries.remove(0);
            proof {
                assert(self.entries@ =~= old(self)@.subrange(1, old(self)@.len() as int));
            }
        }
        self.entries.push(reading);
    }

    /// The reading at the given position, oldest first.
    pub fn get(&self, i: usize) -> (reading: InverterData)
        requires
            i < self@.len(),
        ensures
            reading == self@[i as int],
    {
        self.entries[i]
    }

    /// A window holding a copy of the same readings.
    pub fn duplicate(&self) -> (copy: ReadingHistory)
        ensures
            copy@ == self@,
    {
        ReadingHistory { entries: self.to_vec() }
    }

    /// A copy of the window contents, oldest first.
    pub fn to_vec(&self) -> (readings: Vec<InverterData>)
        ensures
            readings@ == self@,
    {
        let mut readings: Vec<InverterData> = Vec::new();
        let mut i: usize = 0;
        while i < self.entries.len()
            invariant
                i <= self.entries@.len(),
                readings@ == self.entries@.subrange(0, i as int),
            decreases self.entries@.len() - i,
        {
            readings.push(self.entries[i]);
            proof {
                assert(readings@ =~= self.entries@.subrange(0, i as int + 1));
            }
            i = i + 1;
        }
        proof {
            assert(readings@ =~= self.entries@);
        }
        readings
    }
}

/// Appending to a bounded history keeps it within capacity, always leaves the
/// appended reading as the newest entry, evicts exactly the oldest entry of a
/// full window, and plainly appends to a window that still has room.
pub proof fn lemma_history_window(history: Seq<InverterData>, reading: InverterData)
    requires
        history.len() <= HISTORY_CAPACITY,
    ensures
        push_evicting(history, reading).len() <= HISTORY_CAPACITY,
        push_evicting(history, reading).last() == reading,
        history.len() < HISTORY_CAPACITY ==> push_evicting(history, reading) == history.push(
            reading,
        ),
        history.len() == HISTORY_CAPACITY ==> {
            &&& push_evicting(history, reading).len() == HISTORY_CAPACITY
            &&& forall|i: int|
                0 <= i < HISTORY_CAPACITY - 1 ==> push_evicting(history, reading)[i] == history[i
                    + 1]
        },
{
}

} // verus!
