//! Creating and using data connectors.
//!
//! A connector is how the system pulls data for QC. For any data source the
//! system should read from, an implementation of [`DataConnector`] is
//! loaded into a [`DataSwitch`], which the scheduler then dispatches fetch
//! requests through by source name.

use crate::duration::{self, RelativeDuration};
use vstd::prelude::*;
use vstd::string::*;

pub use crate::cache::{DataCache, Timeseries, Timestamp};

verus! {

/// Error type for the data switch.
///
/// A connector may keep its own internal error type, but must map it to
/// this one before returning.
#[derive(Debug)]
pub enum Error {
    /// The series id was not in a valid format.
    InvalidSeriesId(String),
    /// No connector was registered under that data source name.
    InvalidDataSource(String),
    /// The connector or its data source could not parse the extra spec.
    InvalidExtraSpec {
        /// Name of the relevant data source.
        data_source: &'static str,
        /// The extra spec that could not be parsed.
        extra_spec: Option<String>,
        /// What the connector reported.
        reason: String,
    },
    /// An input or output operation inside a connector failed.
    Io(String),
    /// The data source was asked for series data but does not offer it.
    UnimplementedSeries(String),
    /// The data source was asked for spatial data but does not offer it.
    UnimplementedSpatial(String),
    /// Any other error inside a connector.
    Other(String),
}

/// Inclusive range of time, from a start to an end [`Timestamp`].
#[derive(Debug, Clone, Copy, PartialEq, Eq, Structural)]
pub struct Timerange {
    /// Start of the timerange.
    pub start: Timestamp,
    /// End of the timerange.
    pub end: Timestamp,
}

/// Specifier of which data to fetch from a source by time, and at which
/// time resolution.
#[derive(Debug, Clone, Copy, PartialEq, Eq, Structural)]
pub struct TimeSpec {
    /// The range in time of data to fetch.
    pub timerange: Timerange,
    /// The time resolution of data that should be fetched.
    pub time_resolution: RelativeDuration,
}

impl TimeSpec {
    /// Constructs a time spec from start and end timestamps and a time
    /// resolution.
    pub fn new(start: Timestamp, end: Timestamp, time_resolution: RelativeDuration) -> (r:
        TimeSpec)
        requires
            start.0 <= end.0,
        ensures
            r.timerange.start == start,
            r.timerange.end == end,
            r.time_resolution == time_resolution,
    {
        TimeSpec { timerange: Timerange { start, end }, time_resolution }
    }

    /// Constructs a time spec with the resolution given as an ISO-8601
    /// duration, erring exactly when the duration text is malformed.
    pub fn new_time_resolution_string(start: Timestamp, end: Timestamp, time_resolution: &str) -> (r:
        Result<TimeSpec, String>)
        requires
            start.0 <= end.0,
        ensures
            match r {
                Ok(ts) => {
                    &&& ts.timerange.start == start
                    &&& ts.timerange.end == end
                    &&& duration::spec_parse_duration(time_resolution@) == Some(
                        (ts.time_resolution.months as int, ts.time_resolution.seconds as int),
                    )
                },
                Err(_) => duration::spec_parse_duration(time_resolution@) is None,
            },
    {
        match duration::parse_duration(time_resolution) {
            Ok(d) => Ok(TimeSpec { timerange: Timerange { start, end }, time_resolution: d }),
            Err(duration::Error::Parse(msg)) => Err(msg),
        }
    }
}

/// Specifier of a geographic position, by latitude and longitude in
/// degrees.
#[derive(Debug, Clone, Copy, PartialEq, Eq, Structural)]
pub struct GeoPoint {
    /// Latitude, in degrees.
    pub lat: crate::value::Real,
    /// Longitude, in degrees.
    pub lon: crate::value::Real,
}

/// A geospatial polygon, represented by its vertices as a sequence of
/// lat-lon points.
pub type Polygon = Vec<GeoPoint>;

/// Specifier of which data to fetch from a source by location.
#[derive(Debug, Clone, PartialEq)]
pub enum SpaceSpec {
    /// One single timeseries, specified by a data id.
    One(String),
    /// All timeseries within a polygon in lat-lon space.
    Polygon(Polygon),
    /// The whole data set.
    All,
}

/// The text of an extra selection, when one is given.
pub open spec fn spec_extra(extra_spec: Option<&str>) -> Option<Seq<char>> {
    match extra_spec {
        Some(s) => Some(s@),
        None => None,
    }
}

/// The operation a data source must offer: fetch a coherent cache for a
/// space and time selection, with the requested context windows.
///
/// Implementations typically live at the edge of a program, wrapping
/// whatever transport reaches the source; the contract here is what every
/// implementation owes its callers.
pub trait DataConnector {
    /// Whether `r` is a response this connector can give to a fetch with
    /// exactly these arguments. Each implementation defines it, and
    /// `fetch_data` promises it of everything it returns; callers that
    /// route a request through the switch get the connector's own word
    /// back through this predicate.
    spec fn fetch_response(
        &self,
        space_spec: SpaceSpec,
        time_spec: TimeSpec,
        num_leading_points: u8,
        num_trailing_points: u8,
        extra_spec: Option<Seq<char>>,
        r: Result<DataCache, Error>,
    ) -> bool;

    /// Fetches the selected data from the source.
    ///
    /// A returned cache is well formed, carries exactly the requested
    /// context windows, and for a single-series selection holds exactly
    /// that series; cache or error, the result is one of this connector's
    /// own responses to these arguments.
    fn fetch_data(
        &self,
        space_spec: &SpaceSpec,
        time_spec: &TimeSpec,
        num_leading_points: u8,
        num_trailing_points: u8,
        extra_spec: Option<&str>,
    ) -> (r: Result<DataCache, Error>)
        ensures
            r matches Ok(cache) ==> cache.well_formed() && cache.num_leading_points
                == num_leading_points && cache.num_trailing_points == num_trailing_points,
            r matches Ok(cache) ==> (space_spec matches SpaceSpec::One(id)
                ==> cache.data.len() == 1 && cache.data[0].tag@ == id@),
            self.fetch_response(
                *space_spec,
                *time_spec,
                num_leading_points,
                num_trailing_points,
                spec_extra(extra_spec),
                r,
            ),
    ;
}

/// Data routing utility: a registry of connectors, keyed by the data
/// source name used in validation requests.
#[derive(Debug)]
pub struct DataSwitch<C: DataConnector> {
    /// The registered connectors, each under its source name.
    pub sources: Vec<(String, C)>,
}

/// Index of the first source registered under a name, or -1 if none is.
pub open spec fn spec_find_source<C: DataConnector>(
    sources: Seq<(String, C)>,
    name: Seq<char>,
) -> int
    decreases sources.len(),
{
    if sources.len() == 0 {
        -1
    } else if sources[0].0@ == name {
        0
    } else {
        let r = spec_find_source(sources.skip(1), name);
        if r < 0 {
            -1
        } else {
            1 + r
        }
    }
}

proof fn lemma_find_source_at<C: DataConnector>(
    sources: Seq<(String, C)>,
    name: Seq<char>,
    i: int,
)
    requires
        0 <= i < sources.len(),
        sources[i].0@ == name,
        forall|j: int| 0 <= j < i ==> sources[j].0@ != name,
    ensures
        spec_find_source(sources, name) == i,
    decreases sources.len(),
{
    if i > 0 {
        assert(forall|j: int| 0 <= j < i - 1 ==> sources.skip(1)[j].0@ != name);
        lemma_find_source_at(sources.skip(1), name, i - 1);
    }
}

proof fn lemma_find_source_absent<C: DataConnector>(sources: Seq<(String, C)>, name: Seq<char>)
    requires
        forall|j: int| 0 <= j < sources.len() ==> sources[j].0@ != name,
    ensures
        spec_find_source(sources, name) == -1,
    decreases sources.len(),
{
    if sources.len() > 0 {
        assert(forall|j: int| 0 <= j < sources.skip(1).len() ==> sources.skip(1)[j].0@ != name);
        lemma_find_source_absent(sources.skip(1), name);
    }
}

impl<C: DataConnector> DataSwitch<C> {
    /// Whether a source of this name is registered.
    pub open spec fn has_source(self, name: Seq<char>) -> bool {
        spec_find_source(self.sources@, name) >= 0
    }

    /// The connector a fetch for this name is routed to: the first one
    /// registered under the name.
    pub open spec fn spec_source(self, name: Seq<char>) -> C {
        self.sources@[spec_find_source(self.sources@, name)].1
    }

    /// Registers the given connectors, erring when two share a name.
    pub fn new(sources: Vec<(String, C)>) -> (r: Result<Self, Error>)
        ensures
            match r {
                Ok(switch) => {
                    &&& switch.sources@ == sources@
                    &&& forall|i: int, j: int|
                        0 <= i < j < sources@.len() ==> sources@[i].0@ != sources@[j].0@
                },
                Err(e) => {
                    &&& e is InvalidDataSource
                    &&& exists|i: int, j: int|
                        0 <= i < j < sources@.len() && sources@[i].0@ == sources@[j].0@
                },
            },
    {
        let n = sources.len();
        let mut i: usize = 0;
        while i < n
            invariant
                0 <= i <= n,
                n == sources@.len(),
                forall|a: int, b: int| 0 <= a < b < i ==> sources@[a].0@ != sources@[b].0@,
            decreases n - i,
        {
            let mut j: usize = 0;
            while j < i
                invariant
                    0 <= j <= i < n,
                    n == sources@.len(),
                    forall|b: int| 0 <= b < j ==> sources@[b].0@ != sources@[i as int].0@,
                decreases i - j,
            {
                if sources[j].0 == sources[i].0 {
                    let name = sources[i].0.clone();
                    return Err(Error::InvalidDataSource(name));
                }
                j = j + 1;
            }
            i = i + 1;
        }
        Ok(DataSwitch { sources })
    }

    /// Looks up the named source and forwards the fetch request to its
    /// connector; errs with `InvalidDataSource` when no source of that
    /// name is registered, and otherwise hands the connector's response
    /// back unchanged, for exactly the forwarded arguments.
    pub(crate) fn fetch_data(
        &self,
        data_source_id: &str,
        space_spec: &SpaceSpec,
        time_spec: &TimeSpec,
        num_leading_points: u8,
        num_trailing_points: u8,
        extra_spec: Option<&str>,
    ) -> (r: Result<DataCache, Error>)
        ensures
            !self.has_source(data_source_id@) ==> (r matches Err(e) && e matches
                Error::InvalidDataSource(name) && name@ == data_source_id@),
            self.has_source(data_source_id@) ==> self.spec_source(data_source_id@).fetch_response(
                *space_spec,
                *time_spec,
                num_leading_points,
                num_trailing_points,
                spec_extra(extra_spec),
                r,
            ),
            r matches Ok(cache) ==> self.has_source(data_source_id@),
            r matches Ok(cache) ==> cache.well_formed() && cache.num_leading_points
                == num_leading_points && cache.num_trailing_points == num_trailing_points,
            r matches Ok(cache) ==> (space_spec matches SpaceSpec::One(id)
                ==> cache.data.len() == 1 && cache.data[0].tag@ == id@),
    {
        let n = self.sources.len();
        let mut i: usize = 0;
        while i < n
            invariant
                0 <= i <= n,
                n == self.sources@.len(),
                forall|a: int| 0 <= a < i ==> self.sources@[a].0@ != data_source_id@,
            decreases n - i,
        {
            if str_eq(self.sources[i].0.as_str(), data_source_id) {
                proof {
                    lemma_find_source_at(self.sources@, data_source_id@, i as int);
                    assert(self.spec_source(data_source_id@) == self.sources@[i as int].1);
                }
                return self.sources[i].1.fetch_data(
                    space_spec,
                    time_spec,
                    num_leading_points,
                    num_trailing_points,
                    extra_spec,
                );
            }
            i = i + 1;
        }
        proof {
            lemma_find_source_absent(self.sources@, data_source_id@);
        }
        Err(Error::InvalidDataSource(data_source_id.to_owned()))
    }
}

/// Compares two strings character by character.
pub(crate) fn str_eq(a: &str, b: &str) -> (r: bool)
    ensures
        r <==> a@ == b@,
{
    let alen = a.unicode_len();
    let blen = b.unicode_len();
    if alen != blen {
        return false;
    }
    let mut i: usize = 0;
    while i < alen
        invariant
            0 <= i <= alen,
            alen == a@.len(),
            alen == b@.len(),
            forall|j: int| 0 <= j < i ==> a@[j] == b@[j],
        decreases alen - i,
    {
        if a.get_char(i) != b.get_char(i) {
            return false;
        }
        i = i + 1;
    }
    proof {
        assert(a@ =~= b@);
    }
    true
}

} // verus!
