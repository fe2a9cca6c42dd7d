//! Forecast-side domain types and the columnar body parser.
//!
//! The provider sends a forecast as a struct of parallel arrays: one array
//! per meteorological field, indexed by time step, next to a shared run
//! base time (`initstamp`, Unix seconds), an `update_last` civil date-time
//! and an array of hour offsets. Parsing transposes that shape into one
//! row per index and derives each row's `forecast_for` as the base time
//! plus the row's hour offset.

use vstd::prelude::*;
use crate::errors::ParseError;
use crate::json::JsonVal;
use crate::json::arr_field;
use crate::json::bool_field;
use crate::json::i32_field;
use crate::json::int_field;
use crate::json::jv_get;
use crate::json::req_arr;
use crate::json::req_bool;
use crate::json::req_i32;
use crate::json::req_int;
use crate::json::req_node;
use crate::json::req_text;
use crate::json::req_u32;
use crate::json::spec_as_int;
use crate::json::spec_as_milli;
use crate::json::elem_at;
use crate::json::text_field;
use crate::json::u32_field;
use crate::time::civil_to_unix;
use crate::time::parse_datetime;
use crate::time::parse_hour_minute;
use crate::time::spec_civil_unix;
use crate::time::spec_parse_datetime;
use crate::time::spec_parse_hour_minute;

verus! {

pub type IdSpot = i32;

pub type IdModel = i32;

/// The per-model request parameters carried by the metadata response.
#[derive(Debug, Clone, PartialEq, Eq)]
pub struct ForecastParamsMetadata {
    pub id_model: IdModel,
    pub initstr: String,
    pub rundef: String,
    pub period: u32,
    pub cachefix: String,
}

/// One numerical weather model run, as described inside a forecast body.
/// `initdate` holds the run's civil initialization time as Unix seconds.
#[derive(Debug, Clone, PartialEq, Eq)]
pub struct WgModel {
    pub id_model: IdModel,
    pub model: String,
    pub model_name: String,
    pub initdate: i64,
    pub hr_start: u32,
    pub hr_end: u32,
    pub hr_step: u32,
    pub wave: bool,
    pub rundef: String,
}

/// One time-step prediction row. Real-valued fields are in thousandths of
/// the provider's unit; timestamps are Unix seconds.
#[derive(Debug, Clone, Copy, PartialEq, Eq)]
pub struct Fcst {
    pub gust: Option<i64>,
    pub flhgt: Option<i32>,
    pub slp: Option<i32>,
    pub relative_humidity: Option<i32>,
    pub tcdc: Option<i32>,
    pub apcp: Option<i64>,
    pub apcp1: Option<i64>,
    pub wind_speed: Option<i64>,
    pub wind_direction: Option<i32>,
    pub slhgt: Option<i32>,
    pub precipitation: Option<i32>,
    pub temperature: Option<i64>,
    pub forecast_for: i64,
    pub forecast_from: i64,
    pub cloud_cover_high: Option<i32>,
    pub cloud_cover_mid: Option<i32>,
    pub cloud_cover_low: Option<i32>,
}

/// A parsed forecast response: the spot it is for, the model run, sunrise
/// and sunset as minutes after midnight, and the prediction rows.
#[derive(Debug, Clone, PartialEq, Eq)]
pub struct WindguruForecasts {
    pub id_spot: IdSpot,
    pub wgmodel: WgModel,
    pub sunrise: u32,
    pub sunset: u32,
    pub forecasts: Vec<Fcst>,
}

/// A forecast location, as decoded from the metadata's spot table.
#[derive(Debug, Clone, PartialEq, Eq)]
pub struct Spot {
    pub id: IdSpot,
    pub name: String,
    pub country: String,
    pub models: Vec<IdModel>,
    pub gmt_hour_offset: Option<i32>,
}

/// The cell of column `key` at row `i` of a columnar body.
pub open spec fn col_cell(v: JsonVal, key: Seq<char>, i: int) -> JsonVal {
    match jv_get(v, key) {
        Some(col) => elem_at(col, i),
        None => JsonVal::Null,
    }
}

/// Equivalent bodies have equivalent cells in every column.
pub proof fn lemma_sim_col_cell(a: JsonVal, b: JsonVal, key: Seq<char>, i: int)
    requires
        crate::json::jv_sim(a, b),
    ensures
        crate::json::jv_sim(col_cell(a, key, i), col_cell(b, key, i)),
{
    crate::json::lemma_sim_get(a, b, key);
    match (jv_get(a, key), jv_get(b, key)) {
        (Some(x), Some(y)) => {
            crate::json::lemma_sim_reads(x, y);
        },
        _ => {
            assert(crate::json::jv_sim(JsonVal::Null, JsonVal::Null));
        },
    }
}

/// If the cell is an integer number, it fits 32 signed bits.
pub open spec fn cell_i32_ok(x: JsonVal) -> bool {
    match spec_as_int(x) {
        Some(n) => i32::MIN <= n <= i32::MAX,
        None => true,
    }
}

/// The cell's integer narrowed to 32 bits; empty for a non-integer cell.
pub open spec fn cell_i32(x: JsonVal) -> Option<i32> {
    match spec_as_int(x) {
        Some(n) => Some(n as i32),
        None => None,
    }
}

/// The shared run base time of a columnar body.
pub open spec fn fcst_base(v: JsonVal) -> int {
    int_field(v, "initstamp"@).unwrap() as int
}

/// The decoded `update_last` base time of a columnar body, Unix seconds.
pub open spec fn fcst_from(v: JsonVal) -> int {
    spec_civil_unix(spec_parse_datetime(text_field(v, "update_last"@).unwrap()).unwrap())
}

/// Number of rows of a columnar body: the length of its first column.
pub open spec fn fcst_count(v: JsonVal) -> nat {
    arr_field(v, "GUST"@).unwrap().len()
}

/// Row `i`'s hour offset exists and the derived `forecast_for` fits the
/// timestamp word.
pub open spec fn hours_ok(v: JsonVal, i: int) -> bool {
    match spec_as_int(col_cell(v, "hours"@, i)) {
        Some(h) => i64::MIN <= h * 3600 <= i64::MAX
            && i64::MIN <= fcst_base(v) + h * 3600 <= i64::MAX,
        None => false,
    }
}

/// Every integer-typed cell of row `i` that is present fits its column.
pub open spec fn row_ok(v: JsonVal, i: int) -> bool {
    &&& hours_ok(v, i)
    &&& cell_i32_ok(col_cell(v, "FLHGT"@, i))
    &&& cell_i32_ok(col_cell(v, "SLP"@, i))
    &&& cell_i32_ok(col_cell(v, "RH"@, i))
    &&& cell_i32_ok(col_cell(v, "TCDC"@, i))
    &&& cell_i32_ok(col_cell(v, "HCDC"@, i))
    &&& cell_i32_ok(col_cell(v, "MCDC"@, i))
    &&& cell_i32_ok(col_cell(v, "LCDC"@, i))
    &&& cell_i32_ok(col_cell(v, "WINDDIR"@, i))
    &&& cell_i32_ok(col_cell(v, "SLHGT"@, i))
    &&& cell_i32_ok(col_cell(v, "PCPT"@, i))
}

/// The row the columnar body defines at index `i`.
pub open spec fn spec_row(v: JsonVal, i: int) -> Fcst {
    Fcst {
        gust: spec_as_milli(col_cell(v, "GUST"@, i)),
        flhgt: cell_i32(col_cell(v, "FLHGT"@, i)),
        slp: cell_i32(col_cell(v, "SLP"@, i)),
        relative_humidity: cell_i32(col_cell(v, "RH"@, i)),
        tcdc: cell_i32(col_cell(v, "TCDC"@, i)),
        apcp: spec_as_milli(col_cell(v, "APCP1"@, i)),
        apcp1: spec_as_milli(col_cell(v, "APCP1"@, i)),
        wind_speed: spec_as_milli(col_cell(v, "WINDSPD"@, i)),
        wind_direction: cell_i32(col_cell(v, "WINDDIR"@, i)),
        slhgt: cell_i32(col_cell(v, "SLHGT"@, i)),
        precipitation: cell_i32(col_cell(v, "PCPT"@, i)),
        temperature: spec_as_milli(col_cell(v, "TMPE"@, i)),
        forecast_for: (fcst_base(v) + spec_as_int(col_cell(v, "hours"@, i)).unwrap() * 3600) as i64,
        forecast_from: fcst_from(v) as i64,
        cloud_cover_high: cell_i32(col_cell(v, "HCDC"@, i)),
        cloud_cover_mid: cell_i32(col_cell(v, "MCDC"@, i)),
        cloud_cover_low: cell_i32(col_cell(v, "LCDC"@, i)),
    }
}

/// All columns that rows are read from are present.
pub open spec fn fcst_cols_present(v: JsonVal) -> bool {
    &&& jv_get(v, "FLHGT"@) is Some
    &&& jv_get(v, "SLP"@) is Some
    &&& jv_get(v, "RH"@) is Some
    &&& jv_get(v, "TCDC"@) is Some
    &&& jv_get(v, "APCP1"@) is Some
    &&& jv_get(v, "HCDC"@) is Some
    &&& jv_get(v, "MCDC"@) is Some
    &&& jv_get(v, "LCDC"@) is Some
    &&& jv_get(v, "WINDSPD"@) is Some
    &&& jv_get(v, "WINDDIR"@) is Some
    &&& jv_get(v, "SLHGT"@) is Some
    &&& jv_get(v, "PCPT"@) is Some
    &&& jv_get(v, "TMPE"@) is Some
    &&& jv_get(v, "hours"@) is Some
}

/// A columnar forecast body is well-formed: base times are present and
/// decode, the first column is an array, the other columns exist whenever
/// there is a row to read, and every row's cells fit their columns.
pub open spec fn fcst_body_ok(v: JsonVal) -> bool {
    &&& arr_field(v, "GUST"@) is Some
    &&& int_field(v, "initstamp"@) is Some
    &&& (match text_field(v, "update_last"@) {
        Some(t) => spec_parse_datetime(t) is Some,
        None => false,
    })
    &&& (fcst_count(v) > 0 ==> fcst_cols_present(v))
    &&& (forall|i: int| 0 <= i < fcst_count(v) ==> row_ok(v, i))
}

/// The names of the integer-typed columns of a columnar body.
pub open spec fn fcst_i32_col(k: Seq<char>) -> bool {
    k == "FLHGT"@ || k == "SLP"@ || k == "RH"@ || k == "TCDC"@ || k == "HCDC"@
        || k == "MCDC"@ || k == "LCDC"@ || k == "WINDDIR"@ || k == "SLHGT"@ || k == "PCPT"@
}

/// Key `k` of a columnar body is present but genuinely unusable: the
/// wrong type, undecodable text, or holding a cell that does not fit its
/// column.
pub open spec fn fcst_invalid_at(v: JsonVal, k: Seq<char>) -> bool {
    ||| (k == "GUST"@ && jv_get(v, k) is Some && arr_field(v, k) is None)
    ||| (k == "initstamp"@ && jv_get(v, k) is Some && int_field(v, k) is None)
    ||| (k == "update_last"@ && jv_get(v, k) is Some && (match text_field(v, k) {
        Some(t) => spec_parse_datetime(t) is None,
        None => true,
    }))
    ||| (k == "hours"@ && (exists|i: int| 0 <= i < fcst_count(v) && !(#[trigger] hours_ok(v, i))))
    ||| (fcst_i32_col(k) && (exists|i: int| 0 <= i < fcst_count(v)
        && !cell_i32_ok(#[trigger] col_cell(v, k, i))))
}

/// The error identifies a key of the columnar body that is genuinely
/// missing or genuinely unusable.
pub open spec fn fcst_fault(v: JsonVal, e: ParseError) -> bool {
    match e {
        ParseError::MissingField(k) => jv_get(v, k@) is None,
        ParseError::InvalidField(k) => fcst_invalid_at(v, k@),
        _ => false,
    }
}

/// Equivalent columnar bodies are equally well-formed and define the same
/// rows: the row parse reads nothing but what `jv_sim` preserves.
pub proof fn lemma_sim_fcst_body(a: JsonVal, b: JsonVal)
    requires
        crate::json::jv_sim(a, b),
    ensures
        fcst_body_ok(a) == fcst_body_ok(b),
        fcst_base(a) == fcst_base(b),
        fcst_from(a) == fcst_from(b),
        arr_field(a, "GUST"@) is Some ==> fcst_count(a) == fcst_count(b),
        forall|i: int| spec_row(a, i) == spec_row(b, i) && row_ok(a, i) == row_ok(b, i),
{
    crate::json::lemma_sim_field_reads(a, b, "GUST"@);
    crate::json::lemma_sim_field_reads(a, b, "initstamp"@);
    crate::json::lemma_sim_field_reads(a, b, "update_last"@);
    crate::json::lemma_sim_field_reads(a, b, "FLHGT"@);
    crate::json::lemma_sim_field_reads(a, b, "SLP"@);
    crate::json::lemma_sim_field_reads(a, b, "RH"@);
    crate::json::lemma_sim_field_reads(a, b, "TCDC"@);
    crate::json::lemma_sim_field_reads(a, b, "APCP1"@);
    crate::json::lemma_sim_field_reads(a, b, "HCDC"@);
    crate::json::lemma_sim_field_reads(a, b, "MCDC"@);
    crate::json::lemma_sim_field_reads(a, b, "LCDC"@);
    crate::json::lemma_sim_field_reads(a, b, "WINDSPD"@);
    crate::json::lemma_sim_field_reads(a, b, "WINDDIR"@);
    crate::json::lemma_sim_field_reads(a, b, "SLHGT"@);
    crate::json::lemma_sim_field_reads(a, b, "PCPT"@);
    crate::json::lemma_sim_field_reads(a, b, "TMPE"@);
    crate::json::lemma_sim_field_reads(a, b, "hours"@);
    assert forall|i: int| spec_row(a, i) == spec_row(b, i) && row_ok(a, i) == row_ok(b, i) by {
        lemma_sim_col_cell(a, b, "GUST"@, i);
        lemma_sim_col_cell(a, b, "FLHGT"@, i);
        lemma_sim_col_cell(a, b, "SLP"@, i);
        lemma_sim_col_cell(a, b, "RH"@, i);
        lemma_sim_col_cell(a, b, "TCDC"@, i);
        lemma_sim_col_cell(a, b, "APCP1"@, i);
        lemma_sim_col_cell(a, b, "HCDC"@, i);
        lemma_sim_col_cell(a, b, "MCDC"@, i);
        lemma_sim_col_cell(a, b, "LCDC"@, i);
        lemma_sim_col_cell(a, b, "WINDSPD"@, i);
        lemma_sim_col_cell(a, b, "WINDDIR"@, i);
        lemma_sim_col_cell(a, b, "SLHGT"@, i);
        lemma_sim_col_cell(a, b, "PCPT"@, i);
        lemma_sim_col_cell(a, b, "TMPE"@, i);
        lemma_sim_col_cell(a, b, "hours"@, i);
        crate::json::lemma_sim_reads(col_cell(a, "GUST"@, i), col_cell(b, "GUST"@, i));
        crate::json::lemma_sim_reads(col_cell(a, "FLHGT"@, i), col_cell(b, "FLHGT"@, i));
        crate::json::lemma_sim_reads(col_cell(a, "SLP"@, i), col_cell(b, "SLP"@, i));
        crate::json::lemma_sim_reads(col_cell(a, "RH"@, i), col_cell(b, "RH"@, i));
        crate::json::lemma_sim_reads(col_cell(a, "TCDC"@, i), col_cell(b, "TCDC"@, i));
        crate::json::lemma_sim_reads(col_cell(a, "APCP1"@, i), col_cell(b, "APCP1"@, i));
        crate::json::lemma_sim_reads(col_cell(a, "HCDC"@, i), col_cell(b, "HCDC"@, i));
        crate::json::lemma_sim_reads(col_cell(a, "MCDC"@, i), col_cell(b, "MCDC"@, i));
        crate::json::lemma_sim_reads(col_cell(a, "LCDC"@, i), col_cell(b, "LCDC"@, i));
        crate::json::lemma_sim_reads(col_cell(a, "WINDSPD"@, i), col_cell(b, "WINDSPD"@, i));
        crate::json::lemma_sim_reads(col_cell(a, "WINDDIR"@, i), col_cell(b, "WINDDIR"@, i));
        crate::json::lemma_sim_reads(col_cell(a, "SLHGT"@, i), col_cell(b, "SLHGT"@, i));
        crate::json::lemma_sim_reads(col_cell(a, "PCPT"@, i), col_cell(b, "PCPT"@, i));
        crate::json::lemma_sim_reads(col_cell(a, "TMPE"@, i), col_cell(b, "TMPE"@, i));
        crate::json::lemma_sim_reads(col_cell(a, "hours"@, i), col_cell(b, "hours"@, i));
    };
}

/// Equivalent model descriptors are equally well-formed and carry the
/// same fields.
pub proof fn lemma_sim_wgmodel(a: JsonVal, b: JsonVal)
    requires
        crate::json::jv_sim(a, b),
    ensures
        wgmodel_ok(a) == wgmodel_ok(b),
        forall|m: WgModel| wgmodel_match(a, m) == wgmodel_match(b, m),
{
    crate::json::lemma_sim_field_reads(a, b, "id_model"@);
    crate::json::lemma_sim_field_reads(a, b, "model"@);
    crate::json::lemma_sim_field_reads(a, b, "model_name"@);
    crate::json::lemma_sim_field_reads(a, b, "initdate"@);
    crate::json::lemma_sim_field_reads(a, b, "hr_start"@);
    crate::json::lemma_sim_field_reads(a, b, "hr_end"@);
    crate::json::lemma_sim_field_reads(a, b, "hr_step"@);
    crate::json::lemma_sim_field_reads(a, b, "wave"@);
    crate::json::lemma_sim_field_reads(a, b, "rundef"@);
}

/// Equivalent forecast response bodies are equally well-formed and
/// describe the same parsed value.
pub proof fn lemma_sim_forecasts(a: JsonVal, b: JsonVal)
    requires
        crate::json::jv_sim(a, b),
    ensures
        forecasts_ok(a) == forecasts_ok(b),
        forecasts_ok(a) ==> forall|f: WindguruForecasts|
            forecasts_match(a, f) == forecasts_match(b, f),
{
    crate::json::lemma_sim_field_reads(a, b, "id_spot"@);
    crate::json::lemma_sim_field_reads(a, b, "wgmodel"@);
    crate::json::lemma_sim_field_reads(a, b, "sunrise"@);
    crate::json::lemma_sim_field_reads(a, b, "sunset"@);
    crate::json::lemma_sim_field_reads(a, b, "fcst"@);
    match (jv_get(a, "wgmodel"@), jv_get(b, "wgmodel"@)) {
        (Some(w1), Some(w2)) => {
            lemma_sim_wgmodel(w1, w2);
        },
        _ => {},
    }
    match (jv_get(a, "fcst"@), jv_get(b, "fcst"@)) {
        (Some(f1), Some(f2)) => {
            lemma_sim_fcst_body(f1, f2);
        },
        _ => {},
    }
}

/// Equivalent spot-table entries are equally well-formed and describe the
/// same spot.
pub proof fn lemma_sim_spot_entry(a: JsonVal, b: JsonVal)
    requires
        crate::json::jv_sim(a, b),
    ensures
        spot_entry_ok(a) == spot_entry_ok(b),
        forall|s: Spot| spot_match(a, s) == spot_match(b, s),
{
    crate::json::lemma_sim_field_reads(a, b, "id_spot"@);
    crate::json::lemma_sim_field_reads(a, b, "spotname"@);
    crate::json::lemma_sim_field_reads(a, b, "country"@);
    crate::json::lemma_sim_field_reads(a, b, "models"@);
    crate::json::lemma_sim_field_reads(a, b, "gmt_hour_offset"@);
    match (arr_field(a, "models"@), arr_field(b, "models"@)) {
        (Some(xs), Some(ys)) => {
            assert forall|i: int| #![trigger xs[i]] #![trigger ys[i]] 0 <= i < xs.len()
                implies spec_as_int(xs[i]) == spec_as_int(ys[i]) by {
                crate::json::lemma_sim_reads(xs[i], ys[i]);
            };
        },
        _ => {},
    }
    match (jv_get(a, "gmt_hour_offset"@), jv_get(b, "gmt_hour_offset"@)) {
        (Some(x), Some(y)) => {
            crate::json::lemma_sim_reads(x, y);
            assert((x is Null) == (y is Null));
        },
        _ => {},
    }
}

/// Equivalent parameter descriptors are equally well-formed and carry the
/// same fields.
pub proof fn lemma_sim_params_meta(a: JsonVal, b: JsonVal)
    requires
        crate::json::jv_sim(a, b),
    ensures
        params_meta_ok(a) == params_meta_ok(b),
        forall|p: ForecastParamsMetadata| params_meta_match(a, p) == params_meta_match(b, p),
{
    crate::json::lemma_sim_field_reads(a, b, "id_model"@);
    crate::json::lemma_sim_field_reads(a, b, "initstr"@);
    crate::json::lemma_sim_field_reads(a, b, "rundef"@);
    crate::json::lemma_sim_field_reads(a, b, "period"@);
    crate::json::lemma_sim_field_reads(a, b, "cachefix"@);
}

/// Equivalent model-table entries are equally well-formed and carry the
/// same fields.
pub proof fn lemma_sim_metadata(a: JsonVal, b: JsonVal)
    requires
        crate::json::jv_sim(a, b),
    ensures
        metadata_ok(a) == metadata_ok(b),
        forall|m: ForecastMetadata| metadata_match(a, m) == metadata_match(b, m),
{
    crate::json::lemma_sim_field_reads(a, b, "id_spot"@);
    crate::json::lemma_sim_field_reads(a, b, "id_model"@);
    crate::json::lemma_sim_field_reads(a, b, "id_model_arr"@);
    crate::json::lemma_sim_field_reads(a, b, "options"@);
    match (arr_field(a, "id_model_arr"@), arr_field(b, "id_model_arr"@)) {
        (Some(xs), Some(ys)) => {
            assert forall|i: int| #![trigger xs[i]] #![trigger ys[i]] 0 <= i < xs.len()
                implies params_meta_ok(xs[i]) == params_meta_ok(ys[i])
                    && (forall|p: ForecastParamsMetadata|
                        params_meta_match(xs[i], p) == params_meta_match(ys[i], p)) by {
                lemma_sim_params_meta(xs[i], ys[i]);
            };
        },
        _ => {},
    }
    match (jv_get(a, "options"@), jv_get(b, "options"@)) {
        (Some(x), Some(y)) => {
            assert((x is Obj) == (y is Obj));
        },
        _ => {},
    }
}

/// Equivalent metadata responses are equally well-formed and describe the
/// same decoded response.
pub proof fn lemma_sim_spot_response(a: JsonVal, b: JsonVal)
    requires
        crate::json::jv_sim(a, b),
    ensures
        spot_response_ok(a) == spot_response_ok(b),
        spot_response_ok(a) ==> forall|r: ForecastSpotResponse|
            spot_response_match(a, r) == spot_response_match(b, r),
{
    crate::json::lemma_sim_field_reads(a, b, "tabs"@);
    crate::json::lemma_sim_field_reads(a, b, "spots"@);
    match (arr_field(a, "tabs"@), arr_field(b, "tabs"@)) {
        (Some(xs), Some(ys)) => {
            assert forall|i: int| #![trigger xs[i]] #![trigger ys[i]] 0 <= i < xs.len()
                implies metadata_ok(xs[i]) == metadata_ok(ys[i])
                    && (forall|m: ForecastMetadata|
                        metadata_match(xs[i], m) == metadata_match(ys[i], m)) by {
                lemma_sim_metadata(xs[i], ys[i]);
            };
        },
        _ => {},
    }
    match (jv_get(a, "spots"@), jv_get(b, "spots"@)) {
        (Some(JsonVal::Obj(xs)), Some(JsonVal::Obj(ys))) => {
            assert(spot_table(a) == xs@);
            assert(spot_table(b) == ys@);
            assert forall|k: int| #![trigger xs@[k]] #![trigger ys@[k]] 0 <= k < xs@.len()
                implies spot_entry_ok(xs@[k].1) == spot_entry_ok(ys@[k].1)
                    && (forall|s: Spot| spot_match(xs@[k].1, s) == spot_match(ys@[k].1, s)) by {
                lemma_sim_spot_entry(xs@[k].1, ys@[k].1);
            };
        },
        _ => {},
    }
}

/// Read the integer cell of column `key` at row `i`, narrowed to 32 bits;
/// an out-of-range integer is a narrowing failure.
pub(crate) fn read_i32_cell(v: &JsonVal, key: &str, i: usize) -> (r: Result<Option<i32>, ParseError>)
    ensures
        r is Ok <==> cell_i32_ok(col_cell(*v, key@, i as int)),
        r is Ok ==> r.unwrap() == cell_i32(col_cell(*v, key@, i as int)),
        r is Err ==> (r.unwrap_err() matches ParseError::InvalidField(k) && k@ == key@),
{
    match v.cell(key, i).as_int() {
        None => Ok(None),
        Some(n) => {
            if n >= i32::MIN as i64 && n <= i32::MAX as i64 {
                Ok(Some(n as i32))
            } else {
                Err(ParseError::InvalidField(key.to_owned()))
            }
        },
    }
}

/// Parse a columnar forecast body into one row per index.
///
/// Succeeds exactly on well-formed bodies; then row `i` carries the `i`-th
/// cell of every column, `forecast_from` is the decoded `update_last` base
/// and `forecast_for` is `initstamp` plus the row's offset in hours.
pub fn parse_fcst_rows(v: &JsonVal) -> (r: Result<Vec<Fcst>, ParseError>)
    ensures
        r is Ok <==> fcst_body_ok(*v),
        r is Ok ==> r.unwrap()@.len() == fcst_count(*v),
        r is Ok ==> forall|i: int| 0 <= i < fcst_count(*v)
            ==> r.unwrap()@[i] == spec_row(*v, i),
        r is Err ==> fcst_fault(*v, r.unwrap_err()),
{
    let gust_col = match req_arr(v, "GUST") {
        Ok(a) => a,
        Err(e) => { return Err(e); },
    };
    let n = gust_col.len();
    let base = match req_int(v, "initstamp") {
        Ok(b) => b,
        Err(e) => { return Err(e); },
    };
    let upd = match req_text(v, "update_last") {
        Ok(t) => t,
        Err(e) => { return Err(e); },
    };
    let upd_civil = match parse_datetime(upd.as_str()) {
        Some(c) => c,
        None => { return Err(ParseError::InvalidField("update_last".to_owned())); },
    };
    let from_unix = civil_to_unix(&upd_civil);
    if n > 0 {
        if req_node(v, "FLHGT").is_err() { return Err(ParseError::MissingField("FLHGT".to_owned())); }
        if req_node(v, "SLP").is_err() { return Err(ParseError::MissingField("SLP".to_owned())); }
        if req_node(v, "RH").is_err() { return Err(ParseError::MissingField("RH".to_owned())); }
        if req_node(v, "TCDC").is_err() { return Err(ParseError::MissingField("TCDC".to_owned())); }
        if req_node(v, "APCP1").is_err() { return Err(ParseError::MissingField("APCP1".to_owned())); }
        if req_node(v, "HCDC").is_err() { return Err(ParseError::MissingField("HCDC".to_owned())); }
        if req_node(v, "MCDC").is_err() { return Err(ParseError::MissingField("MCDC".to_owned())); }
        if req_node(v, "LCDC").is_err() { return Err(ParseError::MissingField("LCDC".to_owned())); }
        if req_node(v, "WINDSPD").is_err() { return Err(ParseError::MissingField("WINDSPD".to_owned())); }
        if req_node(v, "WINDDIR").is_err() { return Err(ParseError::MissingField("WINDDIR".to_owned())); }
        if req_node(v, "SLHGT").is_err() { return Err(ParseError::MissingField("SLHGT".to_owned())); }
        if req_node(v, "PCPT").is_err() { return Err(ParseError::MissingField("PCPT".to_owned())); }
        if req_node(v, "TMPE").is_err() { return Err(ParseError::MissingField("TMPE".to_owned())); }
        if req_node(v, "hours").is_err() { return Err(ParseError::MissingField("hours".to_owned())); }
    }
    let mut rows: Vec<Fcst> = Vec::new();
    let mut i: usize = 0;
    while i < n
        invariant
            0 <= i <= n,
            n == fcst_count(*v),
            arr_field(*v, "GUST"@) is Some,
            int_field(*v, "initstamp"@) == Some(base),
            (match text_field(*v, "update_last"@) {
                Some(t) => spec_parse_datetime(t) is Some,
                None => false,
            }),
            from_unix as int == fcst_from(*v),
            n > 0 ==> fcst_cols_present(*v),
            rows@.len() == i,
            forall|j: int| 0 <= j < i ==> row_ok(*v, j),
            forall|j: int| 0 <= j < i ==> rows@[j] == spec_row(*v, j),
        decreases n - i,
    {
        let row = match parse_row(v, i, base, from_unix) {
            Ok(row) => row,
            Err(e) => {
                proof {
                    assert(!row_ok(*v, i as int));
                }
                return Err(e);
            },
        };
        rows.push(row);
        i = i + 1;
    }
    Ok(rows)
}

/// Parse row `i` of a columnar body whose base times are already decoded.
fn parse_row(v: &JsonVal, i: usize, base: i64, from_unix: i64) -> (r: Result<Fcst, ParseError>)
    requires
        int_field(*v, "initstamp"@) == Some(base),
        from_unix as int == fcst_from(*v),
    ensures
        r is Ok <==> row_ok(*v, i as int),
        r is Ok ==> r.unwrap() == spec_row(*v, i as int),
        r is Err ==> (match r.unwrap_err() {
            ParseError::InvalidField(k) => (k@ == "hours"@ && !hours_ok(*v, i as int))
                || (fcst_i32_col(k@) && !cell_i32_ok(col_cell(*v, k@, i as int))),
            _ => false,
        }),
{
    let h = match v.cell("hours", i).as_int() {
        Some(h) => h,
        None => { return Err(ParseError::InvalidField("hours".to_owned())); },
    };
    let prod = match h.checked_mul(3600) {
        Some(p) => p,
        None => { return Err(ParseError::InvalidField("hours".to_owned())); },
    };
    let forecast_for = match base.checked_add(prod) {
        Some(t) => t,
        None => { return Err(ParseError::InvalidField("hours".to_owned())); },
    };
    let gust = v.cell("GUST", i).as_milli();
    let flhgt = match read_i32_cell(v, "FLHGT", i) { Ok(x) => x, Err(e) => { return Err(e); } };
    let slp = match read_i32_cell(v, "SLP", i) { Ok(x) => x, Err(e) => { return Err(e); } };
    let relative_humidity = match read_i32_cell(v, "RH", i) { Ok(x) => x, Err(e) => { return Err(e); } };
    let tcdc = match read_i32_cell(v, "TCDC", i) { Ok(x) => x, Err(e) => { return Err(e); } };
    let apcp = v.cell("APCP1", i).as_milli();
    let apcp1 = v.cell("APCP1", i).as_milli();
    let cloud_cover_high = match read_i32_cell(v, "HCDC", i) { Ok(x) => x, Err(e) => { return Err(e); } };
    let cloud_cover_mid = match read_i32_cell(v, "MCDC", i) { Ok(x) => x, Err(e) => { return Err(e); } };
    let cloud_cover_low = match read_i32_cell(v, "LCDC", i) { Ok(x) => x, Err(e) => { return Err(e); } };
    let wind_speed = v.cell("WINDSPD", i).as_milli();
    let wind_direction = match read_i32_cell(v, "WINDDIR", i) { Ok(x) => x, Err(e) => { return Err(e); } };
    let slhgt = match read_i32_cell(v, "SLHGT", i) { Ok(x) => x, Err(e) => { return Err(e); } };
    let precipitation = match read_i32_cell(v, "PCPT", i) { Ok(x) => x, Err(e) => { return Err(e); } };
    let temperature = v.cell("TMPE", i).as_milli();
    let row = Fcst {
        gust,
        flhgt,
        slp,
        relative_humidity,
        tcdc,
        apcp,
        apcp1,
        wind_speed,
        wind_direction,
        slhgt,
        precipitation,
        temperature,
        forecast_for,
        forecast_from: from_unix,
        cloud_cover_high,
        cloud_cover_mid,
        cloud_cover_low,
    };
    proof {
        assert(row_ok(*v, i as int));
        assert(row == spec_row(*v, i as int));
    }
    Ok(row)
}

/// The model descriptor inside a forecast body is well-formed.
pub open spec fn wgmodel_ok(w: JsonVal) -> bool {
    &&& i32_field(w, "id_model"@) is Some
    &&& text_field(w, "model"@) is Some
    &&& text_field(w, "model_name"@) is Some
    &&& (match text_field(w, "initdate"@) {
        Some(t) => spec_parse_datetime(t) is Some,
        None => false,
    })
    &&& u32_field(w, "hr_start"@) is Some
    &&& u32_field(w, "hr_end"@) is Some
    &&& u32_field(w, "hr_step"@) is Some
    &&& bool_field(w, "wave"@) is Some
    &&& text_field(w, "rundef"@) is Some
}

/// `m` carries exactly the model descriptor's fields; `initdate` is the
/// descriptor's civil text converted to Unix seconds.
pub open spec fn wgmodel_match(w: JsonVal, m: WgModel) -> bool {
    &&& Some(m.id_model) == i32_field(w, "id_model"@)
    &&& Some(m.model@) == text_field(w, "model"@)
    &&& Some(m.model_name@) == text_field(w, "model_name"@)
    &&& m.initdate as int == spec_civil_unix(
        spec_parse_datetime(text_field(w, "initdate"@).unwrap()).unwrap())
    &&& Some(m.hr_start) == u32_field(w, "hr_start"@)
    &&& Some(m.hr_end) == u32_field(w, "hr_end"@)
    &&& Some(m.hr_step) == u32_field(w, "hr_step"@)
    &&& Some(m.wave) == bool_field(w, "wave"@)
    &&& Some(m.rundef@) == text_field(w, "rundef"@)
}

/// Key `k` of a model descriptor is present but genuinely unusable.
pub open spec fn wgmodel_invalid_at(w: JsonVal, k: Seq<char>) -> bool {
    ||| (k == "id_model"@ && jv_get(w, k) is Some && i32_field(w, k) is None)
    ||| (k == "model"@ && jv_get(w, k) is Some && text_field(w, k) is None)
    ||| (k == "model_name"@ && jv_get(w, k) is Some && text_field(w, k) is None)
    ||| (k == "initdate"@ && jv_get(w, k) is Some && (match text_field(w, k) {
        Some(t) => spec_parse_datetime(t) is None,
        None => true,
    }))
    ||| (k == "hr_start"@ && jv_get(w, k) is Some && u32_field(w, k) is None)
    ||| (k == "hr_end"@ && jv_get(w, k) is Some && u32_field(w, k) is None)
    ||| (k == "hr_step"@ && jv_get(w, k) is Some && u32_field(w, k) is None)
    ||| (k == "wave"@ && jv_get(w, k) is Some && bool_field(w, k) is None)
    ||| (k == "rundef"@ && jv_get(w, k) is Some && text_field(w, k) is None)
}

/// The error identifies a key of the model descriptor that is genuinely
/// missing or genuinely unusable.
pub open spec fn wgmodel_fault(w: JsonVal, e: ParseError) -> bool {
    match e {
        ParseError::MissingField(k) => jv_get(w, k@) is None,
        ParseError::InvalidField(k) => wgmodel_invalid_at(w, k@),
        _ => false,
    }
}

/// Parse the `wgmodel` descriptor object.
pub fn parse_wgmodel(w: &JsonVal) -> (r: Result<WgModel, ParseError>)
    ensures
        r is Ok <==> wgmodel_ok(*w),
        r is Ok ==> wgmodel_match(*w, r.unwrap()),
        r is Err ==> wgmodel_fault(*w, r.unwrap_err()),
{
    let id_model = match req_i32(w, "id_model") { Ok(x) => x, Err(e) => { return Err(e); } };
    let model = match req_text(w, "model") { Ok(x) => x.clone(), Err(e) => { return Err(e); } };
    let model_name = match req_text(w, "model_name") { Ok(x) => x.clone(), Err(e) => { return Err(e); } };
    let initdate_text = match req_text(w, "initdate") { Ok(x) => x, Err(e) => { return Err(e); } };
    let initdate_civil = match parse_datetime(initdate_text.as_str()) {
        Some(c) => c,
        None => { return Err(ParseError::InvalidField("initdate".to_owned())); },
    };
    let initdate = civil_to_unix(&initdate_civil);
    let hr_start = match req_u32(w, "hr_start") { Ok(x) => x, Err(e) => { return Err(e); } };
    let hr_end = match req_u32(w, "hr_end") { Ok(x) => x, Err(e) => { return Err(e); } };
    let hr_step = match req_u32(w, "hr_step") { Ok(x) => x, Err(e) => { return Err(e); } };
    let wave = match req_bool(w, "wave") { Ok(x) => x, Err(e) => { return Err(e); } };
    let rundef = match req_text(w, "rundef") { Ok(x) => x.clone(), Err(e) => { return Err(e); } };
    Ok(WgModel { id_model, model, model_name, initdate, hr_start, hr_end, hr_step, wave, rundef })
}

/// A forecast response body is well-formed: spot id, model descriptor,
/// sunrise and sunset times, and a well-formed columnar `fcst` part.
pub open spec fn forecasts_ok(v: JsonVal) -> bool {
    &&& i32_field(v, "id_spot"@) is Some
    &&& (match jv_get(v, "wgmodel"@) {
        Some(w) => wgmodel_ok(w),
        None => false,
    })
    &&& (match text_field(v, "sunrise"@) {
        Some(t) => spec_parse_hour_minute(t) is Some,
        None => false,
    })
    &&& (match text_field(v, "sunset"@) {
        Some(t) => spec_parse_hour_minute(t) is Some,
        None => false,
    })
    &&& (match jv_get(v, "fcst"@) {
        Some(b) => fcst_body_ok(b),
        None => false,
    })
}

/// `f` carries exactly what the forecast response body says.
pub open spec fn forecasts_match(v: JsonVal, f: WindguruForecasts) -> bool {
    &&& Some(f.id_spot) == i32_field(v, "id_spot"@)
    &&& wgmodel_match(jv_get(v, "wgmodel"@).unwrap(), f.wgmodel)
    &&& Some(f.sunrise) == spec_parse_hour_minute(text_field(v, "sunrise"@).unwrap())
    &&& Some(f.sunset) == spec_parse_hour_minute(text_field(v, "sunset"@).unwrap())
    &&& f.forecasts@.len() == fcst_count(jv_get(v, "fcst"@).unwrap())
    &&& (forall|i: int| 0 <= i < f.forecasts@.len()
        ==> f.forecasts@[i] == spec_row(jv_get(v, "fcst"@).unwrap(), i))
}

/// The error identifies a part of the forecast response body that is
/// genuinely missing or genuinely unusable: one of its own keys, a key of
/// its model descriptor, or a column of its `fcst` part.
pub open spec fn forecasts_fault(v: JsonVal, e: ParseError) -> bool {
    ||| (match e {
        ParseError::MissingField(k) => jv_get(v, k@) is None,
        ParseError::InvalidField(k) => {
            ||| (k@ == "id_spot"@ && jv_get(v, k@) is Some && i32_field(v, k@) is None)
            ||| (k@ == "sunrise"@ && jv_get(v, k@) is Some && (match text_field(v, k@) {
                Some(t) => spec_parse_hour_minute(t) is None,
                None => true,
            }))
            ||| (k@ == "sunset"@ && jv_get(v, k@) is Some && (match text_field(v, k@) {
                Some(t) => spec_parse_hour_minute(t) is None,
                None => true,
            }))
        },
        _ => false,
    })
    ||| (match jv_get(v, "wgmodel"@) {
        Some(w) => wgmodel_fault(w, e),
        None => false,
    })
    ||| (match jv_get(v, "fcst"@) {
        Some(b) => fcst_fault(b, e),
        None => false,
    })
}

/// Parse a complete forecast response body.
pub fn parse_forecasts(v: &JsonVal) -> (r: Result<WindguruForecasts, ParseError>)
    ensures
        r is Ok <==> forecasts_ok(*v),
        r is Ok ==> forecasts_match(*v, r.unwrap()),
        r is Err ==> forecasts_fault(*v, r.unwrap_err()),
{
    let id_spot = match req_i32(v, "id_spot") { Ok(x) => x, Err(e) => { return Err(e); } };
    let w = match req_node(v, "wgmodel") { Ok(x) => x, Err(e) => { return Err(e); } };
    let wgmodel = match parse_wgmodel(w) { Ok(x) => x, Err(e) => { return Err(e); } };
    let sunrise_text = match req_text(v, "sunrise") { Ok(x) => x, Err(e) => { return Err(e); } };
    let sunrise = match parse_hour_minute(sunrise_text.as_str()) {
        Some(x) => x,
        None => { return Err(ParseError::InvalidField("sunrise".to_owned())); },
    };
    let sunset_text = match req_text(v, "sunset") { Ok(x) => x, Err(e) => { return Err(e); } };
    let sunset = match parse_hour_minute(sunset_text.as_str()) {
        Some(x) => x,
        None => { return Err(ParseError::InvalidField("sunset".to_owned())); },
    };
    let body = match req_node(v, "fcst") { Ok(x) => x, Err(e) => { return Err(e); } };
    let forecasts = match parse_fcst_rows(body) { Ok(x) => x, Err(e) => { return Err(e); } };
    Ok(WindguruForecasts { id_spot, wgmodel, sunrise, sunset, forecasts })
}

/// A spot-table entry is well-formed: a numeric-text id, name, country, a
/// list of integer model ids, and an optional offset.
pub open spec fn spot_entry_ok(x: JsonVal) -> bool {
    &&& (match text_field(x, "id_spot"@) {
        Some(t) => match crate::numtext::spec_parse_i64(t) {
            Some(n) => i32::MIN <= n <= i32::MAX,
            None => false,
        },
        None => false,
    })
    &&& text_field(x, "spotname"@) is Some
    &&& text_field(x, "country"@) is Some
    &&& (match arr_field(x, "models"@) {
        Some(a) => forall|i: int| 0 <= i < a.len()
            ==> (match spec_as_int(#[trigger] a[i]) {
                Some(n) => i32::MIN <= n <= i32::MAX,
                None => false,
            }),
        None => false,
    })
    &&& (match jv_get(x, "gmt_hour_offset"@) {
        None => true,
        Some(node) => node is Null || (match spec_as_int(node) {
            Some(n) => i32::MIN <= n <= i32::MAX,
            None => false,
        }),
    })
}

/// `s` carries exactly the spot-table entry's fields.
pub open spec fn spot_match(x: JsonVal, s: Spot) -> bool {
    &&& s.id as int == crate::numtext::spec_parse_i64(text_field(x, "id_spot"@).unwrap()).unwrap()
    &&& Some(s.name@) == text_field(x, "spotname"@)
    &&& Some(s.country@) == text_field(x, "country"@)
    &&& s.models@.len() == arr_field(x, "models"@).unwrap().len()
    &&& (forall|i: int| 0 <= i < s.models@.len()
        ==> Some(#[trigger] s.models@[i] as i64)
            == spec_as_int(arr_field(x, "models"@).unwrap()[i]))
    &&& s.gmt_hour_offset == (match jv_get(x, "gmt_hour_offset"@) {
        None => None::<i32>,
        Some(node) => match spec_as_int(node) {
            Some(n) => Some(n as i32),
            None => None,
        },
    })
}

/// Key `k` of a spot-table entry is present but genuinely unusable.
pub open spec fn spot_entry_invalid_at(x: JsonVal, k: Seq<char>) -> bool {
    ||| (k == "id_spot"@ && jv_get(x, k) is Some && !(match text_field(x, k) {
        Some(t) => match crate::numtext::spec_parse_i64(t) {
            Some(n) => i32::MIN <= n <= i32::MAX,
            None => false,
        },
        None => false,
    }))
    ||| (k == "spotname"@ && jv_get(x, k) is Some && text_field(x, k) is None)
    ||| (k == "country"@ && jv_get(x, k) is Some && text_field(x, k) is None)
    ||| (k == "models"@ && jv_get(x, k) is Some && !(match arr_field(x, k) {
        Some(a) => forall|i: int| 0 <= i < a.len()
            ==> (match spec_as_int(#[trigger] a[i]) {
                Some(n) => i32::MIN <= n <= i32::MAX,
                None => false,
            }),
        None => false,
    }))
    ||| (k == "gmt_hour_offset"@ && (match jv_get(x, k) {
        Some(node) => !(node is Null) && !(match spec_as_int(node) {
            Some(n) => i32::MIN <= n <= i32::MAX,
            None => false,
        }),
        None => false,
    }))
}

/// The error identifies a key of the spot-table entry that is genuinely
/// missing or genuinely unusable.
pub open spec fn spot_entry_fault(x: JsonVal, e: ParseError) -> bool {
    match e {
        ParseError::MissingField(k) => jv_get(x, k@) is None,
        ParseError::InvalidField(k) => spot_entry_invalid_at(x, k@),
        _ => false,
    }
}

/// Parse one entry of the metadata's spot table. The provider writes the
/// spot id as a string of digits; it is parsed, not passed through.
pub fn parse_spot_entry(x: &JsonVal) -> (r: Result<Spot, ParseError>)
    ensures
        r is Ok <==> spot_entry_ok(*x),
        r is Ok ==> spot_match(*x, r.unwrap()),
        r is Err ==> spot_entry_fault(*x, r.unwrap_err()),
{
    let id_text = match req_text(x, "id_spot") { Ok(t) => t, Err(e) => { return Err(e); } };
    let id64 = match crate::numtext::parse_i64(id_text.as_str()) {
        Some(n) => n,
        None => { return Err(ParseError::InvalidField("id_spot".to_owned())); },
    };
    if id64 < i32::MIN as i64 || id64 > i32::MAX as i64 {
        return Err(ParseError::InvalidField("id_spot".to_owned()));
    }
    let id: i32 = id64 as i32;
    let name = match req_text(x, "spotname") { Ok(t) => t.clone(), Err(e) => { return Err(e); } };
    let country = match req_text(x, "country") { Ok(t) => t.clone(), Err(e) => { return Err(e); } };
    let models_arr = match req_arr(x, "models") { Ok(a) => a, Err(e) => { return Err(e); } };
    let mut models: Vec<i32> = Vec::new();
    let mut i: usize = 0;
    while i < models_arr.len()
        invariant
            0 <= i <= models_arr.len(),
            arr_field(*x, "models"@) == Some(models_arr@),
            models@.len() == i,
            forall|j: int| 0 <= j < i
                ==> (match spec_as_int(#[trigger] models_arr@[j]) {
                    Some(n) => i32::MIN <= n <= i32::MAX && models@[j] as i64 == n,
                    None => false,
                }),
        decreases models_arr.len() - i,
    {
        let m = match models_arr[i].as_int() {
            Some(n) => n,
            None => { return Err(ParseError::InvalidField("models".to_owned())); },
        };
        if m < i32::MIN as i64 || m > i32::MAX as i64 {
            return Err(ParseError::InvalidField("models".to_owned()));
        }
        models.push(m as i32);
        i = i + 1;
    }
    let gmt_hour_offset = match x.get("gmt_hour_offset") {
        None => None,
        Some(node) => match node {
            JsonVal::Null => None,
            _ => match node.as_int() {
                Some(n) => {
                    if n < i32::MIN as i64 || n > i32::MAX as i64 {
                        return Err(ParseError::InvalidField("gmt_hour_offset".to_owned()));
                    }
                    Some(n as i32)
                },
                None => { return Err(ParseError::InvalidField("gmt_hour_offset".to_owned())); },
            },
        },
    };
    Ok(Spot { id, name, country, models, gmt_hour_offset })
}

/// One entry of the metadata's model table: which spot and model it is
/// for, and the per-model request parameter descriptors.
#[derive(Debug, Clone, PartialEq, Eq)]
pub struct ForecastMetadata {
    pub id_spot: IdSpot,
    pub id_model: IdModel,
    pub params: Vec<ForecastParamsMetadata>,
}

/// The decoded metadata response: the model table and the spot table.
#[derive(Debug, Clone, PartialEq, Eq)]
pub struct ForecastSpotResponse {
    pub models: Vec<ForecastMetadata>,
    pub spots: Vec<Spot>,
}

/// One parameter descriptor is well-formed.
pub open spec fn params_meta_ok(x: JsonVal) -> bool {
    &&& i32_field(x, "id_model"@) is Some
    &&& text_field(x, "initstr"@) is Some
    &&& text_field(x, "rundef"@) is Some
    &&& u32_field(x, "period"@) is Some
    &&& text_field(x, "cachefix"@) is Some
}

/// `p` carries exactly the descriptor's fields.
pub open spec fn params_meta_match(x: JsonVal, p: ForecastParamsMetadata) -> bool {
    &&& Some(p.id_model) == i32_field(x, "id_model"@)
    &&& Some(p.initstr@) == text_field(x, "initstr"@)
    &&& Some(p.rundef@) == text_field(x, "rundef"@)
    &&& Some(p.period) == u32_field(x, "period"@)
    &&& Some(p.cachefix@) == text_field(x, "cachefix"@)
}

/// The error identifies a key of the parameter descriptor that is
/// genuinely missing or genuinely unusable.
pub open spec fn params_meta_fault(x: JsonVal, e: ParseError) -> bool {
    match e {
        ParseError::MissingField(k) => jv_get(x, k@) is None,
        ParseError::InvalidField(k) => {
            ||| (k@ == "id_model"@ && jv_get(x, k@) is Some && i32_field(x, k@) is None)
            ||| (k@ == "initstr"@ && jv_get(x, k@) is Some && text_field(x, k@) is None)
            ||| (k@ == "rundef"@ && jv_get(x, k@) is Some && text_field(x, k@) is None)
            ||| (k@ == "period"@ && jv_get(x, k@) is Some && u32_field(x, k@) is None)
            ||| (k@ == "cachefix"@ && jv_get(x, k@) is Some && text_field(x, k@) is None)
        },
        _ => false,
    }
}

/// Parse one parameter descriptor.
pub fn parse_params_meta(x: &JsonVal) -> (r: Result<ForecastParamsMetadata, ParseError>)
    ensures
        r is Ok <==> params_meta_ok(*x),
        r is Ok ==> params_meta_match(*x, r.unwrap()),
        r is Err ==> params_meta_fault(*x, r.unwrap_err()),
{
    let id_model = match req_i32(x, "id_model") { Ok(v) => v, Err(e) => { return Err(e); } };
    let initstr = match req_text(x, "initstr") { Ok(v) => v.clone(), Err(e) => { return Err(e); } };
    let rundef = match req_text(x, "rundef") { Ok(v) => v.clone(), Err(e) => { return Err(e); } };
    let period = match req_u32(x, "period") { Ok(v) => v, Err(e) => { return Err(e); } };
    let cachefix = match req_text(x, "cachefix") { Ok(v) => v.clone(), Err(e) => { return Err(e); } };
    Ok(ForecastParamsMetadata { id_model, initstr, rundef, period, cachefix })
}

/// One model-table entry is well-formed: ids, a descriptor list under
/// `id_model_arr`, and an `options` object.
pub open spec fn metadata_ok(x: JsonVal) -> bool {
    &&& i32_field(x, "id_spot"@) is Some
    &&& i32_field(x, "id_model"@) is Some
    &&& (match arr_field(x, "id_model_arr"@) {
        Some(a) => forall|i: int| 0 <= i < a.len() ==> params_meta_ok(#[trigger] a[i]),
        None => false,
    })
    &&& (match jv_get(x, "options"@) {
        Some(o) => o is Obj,
        None => false,
    })
}

/// `m` carries exactly the model-table entry's fields.
pub open spec fn metadata_match(x: JsonVal, m: ForecastMetadata) -> bool {
    &&& Some(m.id_spot) == i32_field(x, "id_spot"@)
    &&& Some(m.id_model) == i32_field(x, "id_model"@)
    &&& m.params@.len() == arr_field(x, "id_model_arr"@).unwrap().len()
    &&& (forall|i: int| 0 <= i < m.params@.len()
        ==> params_meta_match(arr_field(x, "id_model_arr"@).unwrap()[i],
            #[trigger] m.params@[i]))
}

/// The error identifies a part of the model-table entry that is genuinely
/// missing or genuinely unusable: one of its own keys, or a key of one of
/// its parameter descriptors.
pub open spec fn metadata_fault(x: JsonVal, e: ParseError) -> bool {
    ||| (match e {
        ParseError::MissingField(k) => jv_get(x, k@) is None,
        ParseError::InvalidField(k) => {
            ||| (k@ == "id_spot"@ && jv_get(x, k@) is Some && i32_field(x, k@) is None)
            ||| (k@ == "id_model"@ && jv_get(x, k@) is Some && i32_field(x, k@) is None)
            ||| (k@ == "id_model_arr"@ && jv_get(x, k@) is Some && arr_field(x, k@) is None)
            ||| (k@ == "options"@ && (match jv_get(x, k@) {
                Some(o) => !(o is Obj),
                None => false,
            }))
        },
        _ => false,
    })
    ||| (match arr_field(x, "id_model_arr"@) {
        Some(a) => exists|i: int| 0 <= i < a.len() && params_meta_fault(#[trigger] a[i], e),
        None => false,
    })
}

/// Parse one model-table entry.
pub fn parse_forecast_metadata(x: &JsonVal) -> (r: Result<ForecastMetadata, ParseError>)
    ensures
        r is Ok <==> metadata_ok(*x),
        r is Ok ==> metadata_match(*x, r.unwrap()),
        r is Err ==> metadata_fault(*x, r.unwrap_err()),
{
    let id_spot = match req_i32(x, "id_spot") { Ok(v) => v, Err(e) => { return Err(e); } };
    let id_model = match req_i32(x, "id_model") { Ok(v) => v, Err(e) => { return Err(e); } };
    let arr = match req_arr(x, "id_model_arr") { Ok(a) => a, Err(e) => { return Err(e); } };
    let mut params: Vec<ForecastParamsMetadata> = Vec::new();
    let mut i: usize = 0;
    while i < arr.len()
        invariant
            0 <= i <= arr.len(),
            arr_field(*x, "id_model_arr"@) == Some(arr@),
            params@.len() == i,
            forall|j: int| 0 <= j < i ==> params_meta_ok(#[trigger] arr@[j]),
            forall|j: int| 0 <= j < i ==> params_meta_match(arr@[j], #[trigger] params@[j]),
        decreases arr.len() - i,
    {
        let p = match parse_params_meta(&arr[i]) {
            Ok(p) => p,
            Err(e) => {
                proof {
                    let a = arr_field(*x, "id_model_arr"@).unwrap();
                    assert(a == arr@);
                    assert(!params_meta_ok(a[i as int]));
                }
                return Err(e);
            },
        };
        params.push(p);
        i = i + 1;
    }
    let options = match req_node(x, "options") { Ok(o) => o, Err(e) => { return Err(e); } };
    match options {
        JsonVal::Obj(_) => {},
        _ => { return Err(ParseError::InvalidField("options".to_owned())); },
    }
    Ok(ForecastMetadata { id_spot, id_model, params })
}

/// A whole metadata response is well-formed: a `tabs` array of model
/// entries and a `spots` object of spot entries.
pub open spec fn spot_response_ok(v: JsonVal) -> bool {
    &&& (match arr_field(v, "tabs"@) {
        Some(a) => forall|i: int| 0 <= i < a.len() ==> metadata_ok(#[trigger] a[i]),
        None => false,
    })
    &&& (match jv_get(v, "spots"@) {
        Some(o) => match o {
            JsonVal::Obj(entries) => forall|i: int| 0 <= i < entries@.len()
                ==> spot_entry_ok((#[trigger] entries@[i]).1),
            _ => false,
        },
        None => false,
    })
}

/// The entries of the metadata's spot table, in source order.
pub open spec fn spot_table(v: JsonVal) -> Seq<(String, JsonVal)> {
    match jv_get(v, "spots"@) {
        Some(JsonVal::Obj(entries)) => entries@,
        _ => Seq::empty(),
    }
}

/// `r` carries exactly the response's model table and spot table.
pub open spec fn spot_response_match(v: JsonVal, r: ForecastSpotResponse) -> bool {
    &&& r.models@.len() == arr_field(v, "tabs"@).unwrap().len()
    &&& (forall|i: int| 0 <= i < r.models@.len()
        ==> metadata_match(arr_field(v, "tabs"@).unwrap()[i], #[trigger] r.models@[i]))
    &&& r.spots@.len() == spot_table(v).len()
    &&& (forall|i: int| 0 <= i < r.spots@.len()
        ==> spot_match(spot_table(v)[i].1, #[trigger] r.spots@[i]))
}

/// The error identifies a part of the metadata response that is genuinely
/// missing or genuinely unusable: one of its own keys, a key of one of
/// its model-table entries, or a key of one of its spot-table entries.
pub open spec fn spot_response_fault(v: JsonVal, e: ParseError) -> bool {
    ||| (match e {
        ParseError::MissingField(k) => jv_get(v, k@) is None,
        ParseError::InvalidField(k) => {
            ||| (k@ == "tabs"@ && jv_get(v, k@) is Some && arr_field(v, k@) is None)
            ||| (k@ == "spots"@ && (match jv_get(v, k@) {
                Some(o) => !(o is Obj),
                None => false,
            }))
        },
        _ => false,
    })
    ||| (match arr_field(v, "tabs"@) {
        Some(a) => exists|i: int| 0 <= i < a.len() && metadata_fault(#[trigger] a[i], e),
        None => false,
    })
    ||| (exists|k: int| 0 <= k < spot_table(v).len()
        && spot_entry_fault((#[trigger] spot_table(v)[k]).1, e))
}

/// Parse a whole metadata response.
pub fn parse_spot_response(v: &JsonVal) -> (r: Result<ForecastSpotResponse, ParseError>)
    ensures
        r is Ok <==> spot_response_ok(*v),
        r is Ok ==> spot_response_match(*v, r.unwrap()),
        r is Err ==> spot_response_fault(*v, r.unwrap_err()),
{
    let tabs = match req_arr(v, "tabs") { Ok(a) => a, Err(e) => { return Err(e); } };
    let mut models: Vec<ForecastMetadata> = Vec::new();
    let mut i: usize = 0;
    while i < tabs.len()
        invariant
            0 <= i <= tabs.len(),
            arr_field(*v, "tabs"@) == Some(tabs@),
            models@.len() == i,
            forall|j: int| 0 <= j < i ==> metadata_ok(#[trigger] tabs@[j]),
            forall|j: int| 0 <= j < i ==> metadata_match(tabs@[j], #[trigger] models@[j]),
        decreases tabs.len() - i,
    {
        let m = match parse_forecast_metadata(&tabs[i]) {
            Ok(m) => m,
            Err(e) => {
                proof {
                    let a = arr_field(*v, "tabs"@).unwrap();
                    assert(a == tabs@);
                    assert(!metadata_ok(a[i as int]));
                }
                return Err(e);
            },
        };
        models.push(m);
        i = i + 1;
    }
    let spots_node = match req_node(v, "spots") { Ok(o) => o, Err(e) => { return Err(e); } };
    let entries = match spots_node {
        JsonVal::Obj(entries) => entries,
        _ => { return Err(ParseError::InvalidField("spots".to_owned())); },
    };
    let mut spots: Vec<Spot> = Vec::new();
    let mut k: usize = 0;
    while k < entries.len()
        invariant
            0 <= k <= entries.len(),
            jv_get(*v, "spots"@) == Some(JsonVal::Obj(*entries)),
            spot_table(*v) == entries@,
            spots@.len() == k,
            forall|j: int| 0 <= j < k ==> spot_entry_ok((#[trigger] entries@[j]).1),
            forall|j: int| 0 <= j < k ==> spot_match(entries@[j].1, #[trigger] spots@[j]),
        decreases entries.len() - k,
    {
        let s = match parse_spot_entry(&entries[k].1) {
            Ok(s) => s,
            Err(e) => {
                proof {
                    assert(!spot_entry_ok(entries@[k as int].1));
                }
                return Err(e);
            },
        };
        spots.push(s);
        k = k + 1;
    }
    Ok(ForecastSpotResponse { models, spots })
}

impl Spot {
    /// Pick the one spot of a metadata response. Zero entries, or more
    /// than one, are rejected as ambiguous — never resolved silently.
    pub fn from_entries(entries: Vec<Spot>) -> (r: Result<Spot, ParseError>)
        ensures
            r is Ok <==> entries@.len() == 1,
            r is Ok ==> r.unwrap() == entries@[0],
            entries@.len() != 1 ==> r == Err::<Spot, ParseError>(
                ParseError::AmbiguousSpot(entries@.len() as usize)),
    {
        let n = entries.len();
        if n == 1 {
            let mut entries = entries;
            match entries.pop() {
                Some(s) => Ok(s),
                None => Err(ParseError::AmbiguousSpot(0)),
            }
        } else {
            Err(ParseError::AmbiguousSpot(n))
        }
    }
}

} // verus!
