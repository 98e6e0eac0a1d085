//! The in-memory bundle of observations and station geometry that one
//! validation works on.

use crate::duration::RelativeDuration;
use crate::value::Real;
use vstd::prelude::*;

verus! {

/// Unix timestamp; the inner value is seconds since the epoch.
#[derive(Debug, Clone, Copy, PartialEq, Eq, Structural)]
pub struct Timestamp(pub i64);

/// A slice of a timeseries, tagged with an identifier of the series it is
/// from.
#[derive(Debug, Clone, PartialEq)]
pub struct Timeseries<T> {
    /// String tag identifying the timeseries.
    pub tag: String,
    /// Data values in the timeseries.
    pub values: Vec<T>,
}

/// Container for meteorological data.
///
/// All the series are aligned on `start_time` and `period`: element `k` of
/// any series is the observation at `start_time + k * period`. A `None`
/// represents a gap in a series. The observations to be QCed occupy the
/// middle of each series; the first `num_leading_points` and the last
/// `num_trailing_points` elements are context that some checks need.
///
/// The numeric kernels build their spatial index over `lats`, `lons` and
/// `elevs` in this same station order when a cache is handed to them.
#[derive(Debug, Clone, PartialEq)]
pub struct DataCache {
    /// One timeseries per station, all of the same length.
    pub data: Vec<Timeseries<Option<Real>>>,
    /// Station latitudes in degrees, parallel to `data`.
    pub lats: Vec<Real>,
    /// Station longitudes in degrees, parallel to `data`.
    pub lons: Vec<Real>,
    /// Station elevations in metres above sea level, parallel to `data`.
    pub elevs: Vec<Real>,
    /// Time of the first element of each series.
    pub start_time: Timestamp,
    /// Time gap between successive elements of a series.
    pub period: RelativeDuration,
    /// Context points at the start of each series, before the QCed window.
    pub num_leading_points: u8,
    /// Context points at the end of each series, after the QCed window.
    pub num_trailing_points: u8,
}

impl DataCache {
    /// Length of every series in the cache (zero when it has no stations).
    pub open spec fn series_len(self) -> int {
        if self.data.len() == 0 {
            0
        } else {
            self.data[0].values.len() as int
        }
    }

    /// Number of observations per series inside the QCed window.
    pub open spec fn spec_payload_len(self) -> int {
        self.series_len() - self.num_leading_points - self.num_trailing_points
    }

    /// The shape every cache handed to the harness must have: all series of
    /// one length, geometry vectors parallel to the stations, room for the
    /// context windows, and a non-zero period.
    pub open spec fn well_formed(self) -> bool {
        &&& forall|i: int|
            0 <= i < self.data.len() ==> self.data[i].values.len() == self.series_len()
        &&& self.lats.len() == self.data.len()
        &&& self.lons.len() == self.data.len()
        &&& self.elevs.len() == self.data.len()
        &&& self.series_len() >= self.num_leading_points + self.num_trailing_points
        &&& !(self.period.months == 0 && self.period.seconds == 0)
    }

    /// Bundles observations and station geometry into a cache.
    pub fn new(
        data: Vec<Timeseries<Option<Real>>>,
        lats: Vec<Real>,
        lons: Vec<Real>,
        elevs: Vec<Real>,
        start_time: Timestamp,
        period: RelativeDuration,
        num_leading_points: u8,
        num_trailing_points: u8,
    ) -> (r: DataCache)
        requires
            forall|i: int|
                0 <= i < data.len() ==> #[trigger] data[i].values.len() == data[0].values.len(),
            lats.len() == data.len(),
            lons.len() == data.len(),
            elevs.len() == data.len(),
            (if data.len() == 0 {
                0int
            } else {
                data[0].values.len() as int
            }) >= num_leading_points + num_trailing_points,
            !(period.months == 0 && period.seconds == 0),
        ensures
            r.well_formed(),
            r == (DataCache {
                data,
                lats,
                lons,
                elevs,
                start_time,
                period,
                num_leading_points,
                num_trailing_points,
            }),
    {
        DataCache { data, lats, lons, elevs, start_time, period, num_leading_points, num_trailing_points }
    }

    /// Number of observations per series inside the QCed window.
    pub fn payload_len(&self) -> (r: usize)
        requires
            self.well_formed(),
        ensures
            r == self.spec_payload_len(),
    {
        let total = if self.data.len() == 0 {
            0
        } else {
            self.data[0].values.len()
        };
        total - self.num_leading_points as usize - self.num_trailing_points as usize
    }
}

} // verus!
