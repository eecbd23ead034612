//! Carbon intensity of the grid per half hour, and the choice of the latest
//! measured period and the next period from a day's listing.
use vstd::prelude::*;
use vstd::string::StringExecFns;
use crate::error::AppError;
use crate::rates::is_data_error;

verus! {

/// The intensity band that the service assigns to a period.
#[derive(Debug, Clone, Copy, PartialEq, Eq, Structural)]
pub enum IntensityIndex {
    VeryLow,
    Low,
    Moderate,
    High,
    VeryHigh,
}

impl IntensityIndex {
    /// The CSS class that colours the band.
    pub fn css_class(&self) -> (r: &'static str)
        ensures
            r@ == match *self {
                IntensityIndex::VeryLow => "intensity-very-low"@,
                IntensityIndex::Low => "intensity-low"@,
                IntensityIndex::Moderate => "intensity-moderate"@,
                IntensityIndex::High => "intensity-high"@,
                IntensityIndex::VeryHigh => "intensity-very-high"@,
            },
    {
        match self {
            IntensityIndex::VeryLow => "intensity-very-low",
            IntensityIndex::Low => "intensity-low",
            IntensityIndex::Moderate => "intensity-moderate",
            IntensityIndex::High => "intensity-high",
            IntensityIndex::VeryHigh => "intensity-very-high",
        }
    }

    /// The band's name for people.
    pub fn label(&self) -> (r: &'static str)
        ensures
            r@ == match *self {
                IntensityIndex::VeryLow => "Very Low"@,
                IntensityIndex::Low => "Low"@,
                IntensityIndex::Moderate => "Moderate"@,
                IntensityIndex::High => "High"@,
                IntensityIndex::VeryHigh => "Very High"@,
            },
    {
        match self {
            IntensityIndex::VeryLow => "Very Low",
            IntensityIndex::Low => "Low",
            IntensityIndex::Moderate => "Moderate",
            IntensityIndex::High => "High",
            IntensityIndex::VeryHigh => "Very High",
        }
    }

    /// The band's display colour, as a hex code: greens to red.
    pub fn color(&self) -> (r: &'static str)
        ensures
            r@ == match *self {
                IntensityIndex::VeryLow => "#059669"@,
                IntensityIndex::Low => "#10b981"@,
                IntensityIndex::Moderate => "#f59e0b"@,
                IntensityIndex::High => "#f97316"@,
                IntensityIndex::VeryHigh => "#dc2626"@,
            },
    {
        match self {
            IntensityIndex::VeryLow => "#059669",
            IntensityIndex::Low => "#10b981",
            IntensityIndex::Moderate => "#f59e0b",
            IntensityIndex::High => "#f97316",
            IntensityIndex::VeryHigh => "#dc2626",
        }
    }
}

/// The intensity of one period, in gCO2/kWh.
#[derive(Debug, Clone, Copy, PartialEq, Eq, Structural)]
pub struct Intensity {
    pub forecast: u32,
    /// The measured value, once the period has been measured.
    pub actual: Option<u32>,
    pub index: IntensityIndex,
}

/// One half-hour period, `[from, to)` in seconds since the epoch.
#[derive(Debug, Clone, Copy, PartialEq, Eq, Structural)]
pub struct CarbonIntensityData {
    pub from: i64,
    pub to: i64,
    pub intensity: Intensity,
}

/// The measured value where there is one, else the forecast.
pub open spec fn best_of(p: CarbonIntensityData) -> u32 {
    match p.intensity.actual {
        Some(a) => a,
        None => p.intensity.forecast,
    }
}

impl CarbonIntensityData {
    /// The measured value where there is one, else the forecast.
    pub fn best_intensity(&self) -> (r: u32)
        ensures
            r == best_of(*self),
    {
        match self.intensity.actual {
            Some(a) => a,
            None => self.intensity.forecast,
        }
    }

    /// The period has been measured.
    pub fn has_actual(&self) -> (r: bool)
        ensures
            r == self.intensity.actual is Some,
    {
        self.intensity.actual.is_some()
    }
}

/// The latest measured period and the period that comes next.
#[derive(Debug, Clone, Copy, PartialEq, Eq, Structural)]
pub struct CarbonIntensity {
    pub latest_intensity: CarbonIntensityData,
    pub next: CarbonIntensityData,
}

impl CarbonIntensity {
    pub fn new(latest_intensity: CarbonIntensityData, next: CarbonIntensityData) -> (r: Self)
        ensures
            r.latest_intensity == latest_intensity,
            r.next == next,
    {
        CarbonIntensity { latest_intensity, next }
    }

    /// The best value of the latest measured period.
    pub fn latest_intensity(&self) -> (r: u32)
        ensures
            r == best_of(self.latest_intensity),
    {
        self.latest_intensity.best_intensity()
    }

    /// The forecast of the next period.
    pub fn next_intensity(&self) -> (r: u32)
        ensures
            r == self.next.intensity.forecast,
    {
        self.next.intensity.forecast
    }

    pub fn latest_index(&self) -> (r: IntensityIndex)
        ensures
            r == self.latest_intensity.intensity.index,
    {
        self.latest_intensity.intensity.index
    }

    pub fn next_index(&self) -> (r: IntensityIndex)
        ensures
            r == self.next.intensity.index,
    {
        self.next.intensity.index
    }

    /// The span `(from, to)` of the latest measured period.
    pub fn latest_period(&self) -> (r: (i64, i64))
        ensures
            r == (self.latest_intensity.from, self.latest_intensity.to),
    {
        (self.latest_intensity.from, self.latest_intensity.to)
    }

    /// The span `(from, to)` of the next period.
    pub fn next_period(&self) -> (r: (i64, i64))
        ensures
            r == (self.next.from, self.next.to),
    {
        (self.next.from, self.next.to)
    }

    /// The next forecast less the latest best value.
    pub fn intensity_change(&self) -> (r: i64)
        ensures
            r == self.next.intensity.forecast - best_of(self.latest_intensity),
    {
        self.next_intensity() as i64 - self.latest_intensity() as i64
    }

    /// The latest period has been measured.
    pub fn has_actual(&self) -> (r: bool)
        ensures
            r == self.latest_intensity.intensity.actual is Some,
    {
        self.latest_intensity.has_actual()
    }
}

/// The period has ended by `now` and has been measured.
pub open spec fn ended_with_actual(p: CarbonIntensityData, now: int) -> bool {
    p.to <= now && p.intensity.actual is Some
}

/// The period has not ended by `now`, or starts after it.
pub open spec fn upcoming(p: CarbonIntensityData, now: int) -> bool {
    p.from > now || now < p.to
}

/// Position `k` holds the measured period that ended last, the last of
/// those that ended at the same instant.
pub open spec fn is_latest(d: Seq<CarbonIntensityData>, now: int, k: int) -> bool {
    &&& 0 <= k < d.len()
    &&& ended_with_actual(d[k], now)
    &&& forall|j: int| 0 <= j < d.len() && ended_with_actual(d[j], now) ==> d[j].to <= d[k].to
    &&& forall|j: int| k < j < d.len() && ended_with_actual(d[j], now) ==> d[j].to < d[k].to
}

/// Position `k` holds the first upcoming period.
pub open spec fn is_next(d: Seq<CarbonIntensityData>, now: int, k: int) -> bool {
    &&& 0 <= k < d.len()
    &&& upcoming(d[k], now)
    &&& forall|j: int| 0 <= j < k ==> !upcoming(d[j], now)
}

/// From a listing of periods, the measured period that ended last by `now`
/// and the first period that has not ended by `now`; an error where either
/// is missing.
pub fn select_current_and_next(data: &Vec<CarbonIntensityData>, now: i64) -> (r: Result<
    CarbonIntensity,
    AppError,
>)
    ensures
        r is Ok <==> (exists|k: int| 0 <= k < data@.len() && ended_with_actual(#[trigger] data@[k], now as int))
            && (exists|k: int| 0 <= k < data@.len() && upcoming(#[trigger] data@[k], now as int)),
        r matches Ok(ci) ==> exists|a: int, b: int|
            #![trigger is_latest(data@, now as int, a), is_next(data@, now as int, b)]
            is_latest(data@, now as int, a) && is_next(data@, now as int, b) && ci.latest_intensity
                == data@[a] && ci.next == data@[b],
        r matches Err(e) ==> if exists|k: int| 0 <= k < data@.len() && ended_with_actual(#[trigger] data@[k], now as int) {
            is_data_error(e, "No next period found in response"@)
        } else {
            is_data_error(e, "No period with actual data found in response"@)
        },
{
    let mut latest: Option<usize> = None;
    let mut i: usize = 0;
    while i < data.len()
        invariant
            i <= data@.len(),
            latest is None ==> forall|j: int| 0 <= j < i ==> !ended_with_actual(#[trigger] data@[j], now as int),
            latest matches Some(k) ==> k < i && is_latest(data@.subrange(0, i as int), now as int, k as int),
        decreases data@.len() - i,
    {
        let p = data[i];
        if p.to <= now && p.intensity.actual.is_some() {
            match latest {
                None => {
                    latest = Some(i);
                },
                Some(k) => {
                    if p.to >= data[k].to {
                        latest = Some(i);
                    }
                },
            }
        }
        proof {
            let q = data@.subrange(0, i as int + 1);
            assert(forall|j: int| 0 <= j <= i ==> q[j] == data@[j]);
        }
        i += 1;
    }
    assert(data@.subrange(0, data@.len() as int) =~= data@);
    let k = match latest {
        Some(k) => k,
        None => {
            return Err(
                AppError::DataError(String::from_str("No period with actual data found in response")),
            );
        },
    };
    assert(is_latest(data@, now as int, k as int));
    let mut j: usize = 0;
    while j < data.len()
        invariant
            j <= data@.len(),
            is_latest(data@, now as int, k as int),
            forall|m: int| 0 <= m < j ==> !upcoming(#[trigger] data@[m], now as int),
        decreases data@.len() - j,
    {
        let p = data[j];
        if p.from > now || now < p.to {
            assert(is_next(data@, now as int, j as int));
            return Ok(CarbonIntensity::new(data[k], p));
        }
        j += 1;
    }
    assert(is_latest(data@, now as int, k as int));
    Err(AppError::DataError(String::from_str("No next period found in response")))
}

} // verus!
