//! Station-side domain types and the station body parser.
//!
//! A station body is columnar like a forecast body: one parallel array per
//! sensor field, indexed by sample. Each sample's `datetime` cell is civil
//! text in the station's own zone; the body's `tzoffset` (seconds) relates
//! it to UTC, so a sample's UTC timestamp is its local time minus the
//! offset.

use vstd::prelude::*;
use crate::errors::ParseError;
use crate::forecast::cell_i32;
use crate::forecast::cell_i32_ok;
use crate::forecast::col_cell;
use crate::forecast::lemma_sim_col_cell;
use crate::json::jv_sim;
use crate::forecast::read_i32_cell;
use crate::json::JsonVal;
use crate::json::arr_field;
use crate::json::int_field;
use crate::json::jv_get;
use crate::json::req_arr;
use crate::json::req_int;
use crate::json::req_node;
use crate::json::spec_as_milli;
use crate::json::spec_as_text;
use crate::time::CivilDateTime;
use crate::time::civil_to_unix;
use crate::time::parse_datetime;
use crate::time::spec_civil_unix;
use crate::time::spec_parse_datetime;

verus! {

pub type IdStation = i32;

/// The query parameters of a station-data request: the station, a UTC
/// time window, and the averaging interval in minutes.
#[derive(Debug, Clone, PartialEq, Eq)]
pub struct WindguruStationFetchParams {
    pub id_station: IdStation,
    pub from: CivilDateTime,
    pub to: CivilDateTime,
    pub avg_minutes: u32,
    pub method: String,
    pub graph_info: u32,
}

/// The civil rendering of the Unix epoch.
pub open spec fn epoch_civil() -> CivilDateTime {
    CivilDateTime { year: 1970, month: 1, day: 1, hour: 0, minute: 0, second: 0 }
}

impl Default for WindguruStationFetchParams {
    /// An empty window at the epoch, five-minute averaging, and the
    /// provider's `station_data` method selector.
    fn default() -> (r: Self)
        ensures
            r.id_station == 0,
            r.from == epoch_civil(),
            r.to == epoch_civil(),
            r.avg_minutes == 5,
            r.method@ == "station_data"@,
            r.graph_info == 1,
    {
        WindguruStationFetchParams {
            id_station: 0,
            from: CivilDateTime { year: 1970, month: 1, day: 1, hour: 0, minute: 0, second: 0 },
            to: CivilDateTime { year: 1970, month: 1, day: 1, hour: 0, minute: 0, second: 0 },
            avg_minutes: 5,
            method: "station_data".to_owned(),
            graph_info: 1,
        }
    }
}

/// One observed sample. `datetime_local` is the station's civil clock
/// reading, `timestamp_utc` the same instant as Unix seconds; real-valued
/// sensor fields are in thousandths of the provider's unit.
#[derive(Debug, Clone, Copy, PartialEq, Eq)]
pub struct WindguruStationReading {
    pub datetime_local: CivilDateTime,
    pub timestamp_utc: i64,
    pub gustiness: Option<i64>,
    pub temperature: Option<i64>,
    pub wind_avg: Option<i64>,
    pub wind_max: Option<i64>,
    pub wind_min: Option<i64>,
    pub wind_direction: Option<i32>,
    pub relative_humidity: Option<i32>,
    pub mean_sea_level_pressure: Option<i64>,
}

/// The samples of one response together with the station's UTC offset in
/// seconds.
#[derive(Debug, Clone, PartialEq, Eq)]
pub struct WindguruStationReadingsWithTime {
    pub tzoffset: i32,
    pub readings: Vec<WindguruStationReading>,
}

/// A parsed station response: the samples and the response's own UTC
/// window stamps.
#[derive(Debug, Clone, PartialEq, Eq)]
pub struct WindguruStationData {
    pub readings: WindguruStationReadingsWithTime,
    pub datetime_start_utc: i64,
    pub datetime_end_utc: i64,
}

/// The body's UTC offset exists and is less than a day in magnitude.
pub open spec fn tz_ok(v: JsonVal) -> bool {
    match int_field(v, "tzoffset"@) {
        Some(t) => -86400 < t < 86400,
        None => false,
    }
}

/// The body's UTC offset in seconds.
pub open spec fn station_tz(v: JsonVal) -> int {
    int_field(v, "tzoffset"@).unwrap() as int
}

/// Number of samples: the length of the `datetime` column.
pub open spec fn station_count(v: JsonVal) -> nat {
    arr_field(v, "datetime"@).unwrap().len()
}

/// All sensor columns samples are read from are present.
pub open spec fn station_cols_present(v: JsonVal) -> bool {
    &&& jv_get(v, "gustiness"@) is Some
    &&& jv_get(v, "temperature"@) is Some
    &&& jv_get(v, "wind_avg"@) is Some
    &&& jv_get(v, "wind_max"@) is Some
    &&& jv_get(v, "wind_min"@) is Some
    &&& jv_get(v, "wind_direction"@) is Some
    &&& jv_get(v, "rh"@) is Some
    &&& jv_get(v, "mslp"@) is Some
}

/// Sample `i` is well-formed: its `datetime` cell is civil text that
/// parses, and its integer-typed cells fit their columns.
pub open spec fn station_row_ok(v: JsonVal, i: int) -> bool {
    &&& (match spec_as_text(col_cell(v, "datetime"@, i)) {
        Some(t) => spec_parse_datetime(t) is Some,
        None => false,
    })
    &&& cell_i32_ok(col_cell(v, "wind_direction"@, i))
    &&& cell_i32_ok(col_cell(v, "rh"@, i))
}

/// The local civil time of sample `i`.
pub open spec fn station_local(v: JsonVal, i: int) -> CivilDateTime {
    spec_parse_datetime(spec_as_text(col_cell(v, "datetime"@, i)).unwrap()).unwrap()
}

/// The sample the station body defines at index `i`.
pub open spec fn spec_station_row(v: JsonVal, i: int) -> WindguruStationReading {
    WindguruStationReading {
        datetime_local: station_local(v, i),
        timestamp_utc: (spec_civil_unix(station_local(v, i)) - station_tz(v)) as i64,
        gustiness: spec_as_milli(col_cell(v, "gustiness"@, i)),
        temperature: spec_as_milli(col_cell(v, "temperature"@, i)),
        wind_avg: spec_as_milli(col_cell(v, "wind_avg"@, i)),
        wind_max: spec_as_milli(col_cell(v, "wind_max"@, i)),
        wind_min: spec_as_milli(col_cell(v, "wind_min"@, i)),
        wind_direction: cell_i32(col_cell(v, "wind_direction"@, i)),
        relative_humidity: cell_i32(col_cell(v, "rh"@, i)),
        mean_sea_level_pressure: spec_as_milli(col_cell(v, "mslp"@, i)),
    }
}

/// A station body is well-formed.
pub open spec fn station_body_ok(v: JsonVal) -> bool {
    &&& arr_field(v, "datetime"@) is Some
    &&& tz_ok(v)
    &&& int_field(v, "startstamp"@) is Some
    &&& int_field(v, "endstamp"@) is Some
    &&& (station_count(v) > 0 ==> station_cols_present(v))
    &&& (forall|i: int| 0 <= i < station_count(v) ==> station_row_ok(v, i))
}

/// `d` carries exactly what the station body says: the offset, the window
/// stamps, and one sample per `datetime` cell with its UTC timestamp
/// derived as local time minus the offset.
pub open spec fn station_match(v: JsonVal, d: WindguruStationData) -> bool {
    &&& d.readings.tzoffset as int == station_tz(v)
    &&& Some(d.datetime_start_utc) == int_field(v, "startstamp"@)
    &&& Some(d.datetime_end_utc) == int_field(v, "endstamp"@)
    &&& d.readings.readings@.len() == station_count(v)
    &&& (forall|i: int| 0 <= i < station_count(v)
        ==> d.readings.readings@[i] == spec_station_row(v, i))
}

/// The `datetime` cell of sample `i` is not civil text that decodes.
pub open spec fn datetime_cell_bad(v: JsonVal, i: int) -> bool {
    !(match spec_as_text(col_cell(v, "datetime"@, i)) {
        Some(t) => spec_parse_datetime(t) is Some,
        None => false,
    })
}

/// Key `k` of a station body is present but genuinely unusable: the wrong
/// type, out of range, or holding a cell that does not fit its column.
pub open spec fn station_invalid_at(v: JsonVal, k: Seq<char>) -> bool {
    ||| (k == "datetime"@ && jv_get(v, k) is Some && (arr_field(v, k) is None
        || (exists|i: int| 0 <= i < station_count(v) && #[trigger] datetime_cell_bad(v, i))))
    ||| (k == "tzoffset"@ && jv_get(v, k) is Some && !tz_ok(v))
    ||| (k == "startstamp"@ && jv_get(v, k) is Some && int_field(v, k) is None)
    ||| (k == "endstamp"@ && jv_get(v, k) is Some && int_field(v, k) is None)
    ||| ((k == "wind_direction"@ || k == "rh"@) && (exists|i: int| 0 <= i < station_count(v)
        && !cell_i32_ok(#[trigger] col_cell(v, k, i))))
}

/// The error identifies a key of the station body that is genuinely
/// missing or genuinely unusable.
pub open spec fn station_fault(v: JsonVal, e: ParseError) -> bool {
    match e {
        ParseError::MissingField(k) => jv_get(v, k@) is None,
        ParseError::InvalidField(k) => station_invalid_at(v, k@),
        _ => false,
    }
}

/// Equivalent bodies are equally well-formed and define the same data:
/// the station parse reads nothing but what `jv_sim` preserves.
pub proof fn lemma_sim_station(a: JsonVal, b: JsonVal)
    requires
        crate::json::jv_sim(a, b),
    ensures
        station_body_ok(a) == station_body_ok(b),
        station_body_ok(a) ==> forall|d: WindguruStationData|
            station_match(a, d) == station_match(b, d),
{
    crate::json::lemma_sim_field_reads(a, b, "datetime"@);
    crate::json::lemma_sim_field_reads(a, b, "tzoffset"@);
    crate::json::lemma_sim_field_reads(a, b, "startstamp"@);
    crate::json::lemma_sim_field_reads(a, b, "endstamp"@);
    crate::json::lemma_sim_field_reads(a, b, "gustiness"@);
    crate::json::lemma_sim_field_reads(a, b, "temperature"@);
    crate::json::lemma_sim_field_reads(a, b, "wind_avg"@);
    crate::json::lemma_sim_field_reads(a, b, "wind_max"@);
    crate::json::lemma_sim_field_reads(a, b, "wind_min"@);
    crate::json::lemma_sim_field_reads(a, b, "wind_direction"@);
    crate::json::lemma_sim_field_reads(a, b, "rh"@);
    crate::json::lemma_sim_field_reads(a, b, "mslp"@);
    assert forall|i: int| jv_sim(#[trigger] col_cell(a, "datetime"@, i), col_cell(b, "datetime"@, i))
        && jv_sim(col_cell(a, "gustiness"@, i), col_cell(b, "gustiness"@, i))
        && jv_sim(col_cell(a, "temperature"@, i), col_cell(b, "temperature"@, i))
        && jv_sim(col_cell(a, "wind_avg"@, i), col_cell(b, "wind_avg"@, i))
        && jv_sim(col_cell(a, "wind_max"@, i), col_cell(b, "wind_max"@, i))
        && jv_sim(col_cell(a, "wind_min"@, i), col_cell(b, "wind_min"@, i))
        && jv_sim(col_cell(a, "wind_direction"@, i), col_cell(b, "wind_direction"@, i))
        && jv_sim(col_cell(a, "rh"@, i), col_cell(b, "rh"@, i))
        && jv_sim(col_cell(a, "mslp"@, i), col_cell(b, "mslp"@, i)) by {
        lemma_sim_col_cell(a, b, "datetime"@, i);
        lemma_sim_col_cell(a, b, "gustiness"@, i);
        lemma_sim_col_cell(a, b, "temperature"@, i);
        lemma_sim_col_cell(a, b, "wind_avg"@, i);
        lemma_sim_col_cell(a, b, "wind_max"@, i);
        lemma_sim_col_cell(a, b, "wind_min"@, i);
        lemma_sim_col_cell(a, b, "wind_direction"@, i);
        lemma_sim_col_cell(a, b, "rh"@, i);
        lemma_sim_col_cell(a, b, "mslp"@, i);
    };
    assert forall|i: int| station_row_ok(a, i) == station_row_ok(b, i)
        && spec_station_row(a, i) == spec_station_row(b, i) by {
        crate::json::lemma_sim_reads(col_cell(a, "datetime"@, i), col_cell(b, "datetime"@, i));
        crate::json::lemma_sim_reads(col_cell(a, "gustiness"@, i), col_cell(b, "gustiness"@, i));
        crate::json::lemma_sim_reads(col_cell(a, "temperature"@, i), col_cell(b, "temperature"@, i));
        crate::json::lemma_sim_reads(col_cell(a, "wind_avg"@, i), col_cell(b, "wind_avg"@, i));
        crate::json::lemma_sim_reads(col_cell(a, "wind_max"@, i), col_cell(b, "wind_max"@, i));
        crate::json::lemma_sim_reads(col_cell(a, "wind_min"@, i), col_cell(b, "wind_min"@, i));
        crate::json::lemma_sim_reads(col_cell(a, "wind_direction"@, i), col_cell(b, "wind_direction"@, i));
        crate::json::lemma_sim_reads(col_cell(a, "rh"@, i), col_cell(b, "rh"@, i));
        crate::json::lemma_sim_reads(col_cell(a, "mslp"@, i), col_cell(b, "mslp"@, i));
    };
    if station_body_ok(a) || station_body_ok(b) {
        assert(station_body_ok(a) == station_body_ok(b));
    }
}

/// Parse sample `i` of a station body whose offset is already decoded.
fn parse_station_row(v: &JsonVal, i: usize, tz: i32) -> (r: Result<WindguruStationReading, ParseError>)
    requires
        int_field(*v, "tzoffset"@) == Some(tz as i64),
        -86400 < tz < 86400,
    ensures
        r is Ok <==> station_row_ok(*v, i as int),
        r is Ok ==> r.unwrap() == spec_station_row(*v, i as int),
        r is Err ==> (match r.unwrap_err() {
            ParseError::InvalidField(k) => (k@ == "datetime"@ && datetime_cell_bad(*v, i as int))
                || ((k@ == "wind_direction"@ || k@ == "rh"@)
                    && !cell_i32_ok(col_cell(*v, k@, i as int))),
            _ => false,
        }),
{
    let dt_text = match v.cell("datetime", i).as_text() {
        Some(t) => t,
        None => { return Err(ParseError::InvalidField("datetime".to_owned())); },
    };
    let datetime_local = match parse_datetime(dt_text.as_str()) {
        Some(c) => c,
        None => { return Err(ParseError::InvalidField("datetime".to_owned())); },
    };
    let local_unix = civil_to_unix(&datetime_local);
    let timestamp_utc = local_unix - (tz as i64);
    let gustiness = v.cell("gustiness", i).as_milli();
    let temperature = v.cell("temperature", i).as_milli();
    let wind_avg = v.cell("wind_avg", i).as_milli();
    let wind_max = v.cell("wind_max", i).as_milli();
    let wind_min = v.cell("wind_min", i).as_milli();
    let wind_direction = match read_i32_cell(v, "wind_direction", i) {
        Ok(x) => x,
        Err(e) => { return Err(e); },
    };
    let relative_humidity = match read_i32_cell(v, "rh", i) {
        Ok(x) => x,
        Err(e) => { return Err(e); },
    };
    let mean_sea_level_pressure = v.cell("mslp", i).as_milli();
    let row = WindguruStationReading {
        datetime_local,
        timestamp_utc,
        gustiness,
        temperature,
        wind_avg,
        wind_max,
        wind_min,
        wind_direction,
        relative_humidity,
        mean_sea_level_pressure,
    };
    proof {
        assert(station_row_ok(*v, i as int));
        assert(row == spec_station_row(*v, i as int));
    }
    Ok(row)
}

/// Parse a station response body.
pub fn parse_station(v: &JsonVal) -> (r: Result<WindguruStationData, ParseError>)
    ensures
        r is Ok <==> station_body_ok(*v),
        r is Ok ==> station_match(*v, r.unwrap()),
        r is Err ==> station_fault(*v, r.unwrap_err()),
{
    let dt_col = match req_arr(v, "datetime") { Ok(a) => a, Err(e) => { return Err(e); } };
    let n = dt_col.len();
    let tz64 = match req_int(v, "tzoffset") { Ok(t) => t, Err(e) => { return Err(e); } };
    if tz64 <= -86400 || tz64 >= 86400 {
        return Err(ParseError::InvalidField("tzoffset".to_owned()));
    }
    let tz: i32 = tz64 as i32;
    let datetime_start_utc = match req_int(v, "startstamp") { Ok(t) => t, Err(e) => { return Err(e); } };
    let datetime_end_utc = match req_int(v, "endstamp") { Ok(t) => t, Err(e) => { return Err(e); } };
    if n > 0 {
        if req_node(v, "gustiness").is_err() { return Err(ParseError::MissingField("gustiness".to_owned())); }
        if req_node(v, "temperature").is_err() { return Err(ParseError::MissingField("temperature".to_owned())); }
        if req_node(v, "wind_avg").is_err() { return Err(ParseError::MissingField("wind_avg".to_owned())); }
        if req_node(v, "wind_max").is_err() { return Err(ParseError::MissingField("wind_max".to_owned())); }
        if req_node(v, "wind_min").is_err() { return Err(ParseError::MissingField("wind_min".to_owned())); }
        if req_node(v, "wind_direction").is_err() { return Err(ParseError::MissingField("wind_direction".to_owned())); }
        if req_node(v, "rh").is_err() { return Err(ParseError::MissingField("rh".to_owned())); }
        if req_node(v, "mslp").is_err() { return Err(ParseError::MissingField("mslp".to_owned())); }
    }
    let mut readings: Vec<WindguruStationReading> = Vec::new();
    let mut i: usize = 0;
    while i < n
        invariant
            0 <= i <= n,
            n == station_count(*v),
            arr_field(*v, "datetime"@) is Some,
            int_field(*v, "tzoffset"@) == Some(tz as i64),
            -86400 < tz < 86400,
            int_field(*v, "startstamp"@) == Some(datetime_start_utc),
            int_field(*v, "endstamp"@) == Some(datetime_end_utc),
            n > 0 ==> station_cols_present(*v),
            readings@.len() == i,
            forall|j: int| 0 <= j < i ==> station_row_ok(*v, j),
            forall|j: int| 0 <= j < i ==> readings@[j] == spec_station_row(*v, j),
        decreases n - i,
    {
        let row = match parse_station_row(v, i, tz) {
            Ok(row) => row,
            Err(e) => {
                proof {
                    assert(!station_row_ok(*v, i as int));
                }
                return Err(e);
            },
        };
        readings.push(row);
        i = i + 1;
    }
    Ok(WindguruStationData {
        readings: WindguruStationReadingsWithTime { tzoffset: tz, readings },
        datetime_start_utc,
        datetime_end_utc,
    })
}

} // verus!
