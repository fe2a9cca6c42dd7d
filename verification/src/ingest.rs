//! Ingest records, the rows they persist as, and the idempotency rules.
//!
//! A fetched record is flattened here into plain bind rows, one per
//! statement placeholder tuple, in the exact column order of the store's
//! tables. Persisting is idempotent: reference rows are insert-if-absent
//! by natural key, and a uniqueness violation on a bulk fact insert is
//! success, not an error. Those rules are stated and proved here; the
//! shell only executes statements and reports outcomes back.

use vstd::prelude::*;
use crate::errors::DbErrorInfo;
use crate::errors::IngestError;
use crate::forecast::Spot;
use crate::forecast::WindguruForecasts;
use crate::station::WindguruStationData;

verus! {

/// A fetched forecast ready for storage: the parsed response and the one
/// spot the metadata described.
#[derive(Debug, Clone, PartialEq, Eq)]
pub struct WindguruForecast {
    pub forecast: WindguruForecasts,
    pub spot: Spot,
}

/// A record ready for storage.
#[derive(Debug, PartialEq, Eq)]
pub enum IngestMsg {
    WindguruForecast(WindguruForecast),
    WindguruStationReading(i64, WindguruStationData),
    WindguruSpot(Spot),
}

impl IngestMsg {
    /// A short name for logs, one per variant.
    pub fn label(&self) -> (r: &'static str)
        ensures
            self is WindguruForecast ==> r@ == "WindguruForecastIngestMsg"@,
            self is WindguruStationReading ==> r@ == "WindguruStationIngestMsg"@,
            self is WindguruSpot ==> r@ == "WindguruSpotMsg"@,
    {
        match self {
            IngestMsg::WindguruForecast(_) => "WindguruForecastIngestMsg",
            IngestMsg::WindguruStationReading(_, _) => "WindguruStationIngestMsg",
            IngestMsg::WindguruSpot(_) => "WindguruSpotMsg",
        }
    }
}

/// One placeholder tuple of the forecast bulk insert, in column order.
#[derive(Debug, Clone, Copy, PartialEq, Eq)]
pub struct ForecastRowBind {
    pub id_spot: i32,
    pub id_model: i32,
    pub forecast_from: i64,
    pub forecast_for: i64,
    pub wave: bool,
    pub gust: Option<i64>,
    pub wind_speed: Option<i64>,
    pub wind_direction: Option<i32>,
    pub temperature: Option<i64>,
    pub relative_humidity: Option<i32>,
    pub precipitation: Option<i32>,
    pub cloud_cover_high: Option<i32>,
    pub cloud_cover_mid: Option<i32>,
    pub cloud_cover_low: Option<i32>,
}

/// The bind row that prediction `i` of `f` persists as.
pub open spec fn spec_forecast_bind(f: WindguruForecasts, i: int) -> ForecastRowBind {
    ForecastRowBind {
        id_spot: f.id_spot,
        id_model: f.wgmodel.id_model,
        forecast_from: f.forecasts@[i].forecast_from,
        forecast_for: f.forecasts@[i].forecast_for,
        wave: f.wgmodel.wave,
        gust: f.forecasts@[i].gust,
        wind_speed: f.forecasts@[i].wind_speed,
        wind_direction: f.forecasts@[i].wind_direction,
        temperature: f.forecasts@[i].temperature,
        relative_humidity: f.forecasts@[i].relative_humidity,
        precipitation: f.forecasts@[i].precipitation,
        cloud_cover_high: f.forecasts@[i].cloud_cover_high,
        cloud_cover_mid: f.forecasts@[i].cloud_cover_mid,
        cloud_cover_low: f.forecasts@[i].cloud_cover_low,
    }
}

/// Flatten a parsed forecast into its bulk-insert bind rows, one per
/// prediction, each carrying the shared spot, model and wave flag.
pub fn forecast_insert_rows(f: &WindguruForecasts) -> (r: Vec<ForecastRowBind>)
    ensures
        r@.len() == f.forecasts@.len(),
        forall|i: int| 0 <= i < r@.len() ==> r@[i] == spec_forecast_bind(*f, i),
{
    let mut r: Vec<ForecastRowBind> = Vec::new();
    let mut i: usize = 0;
    while i < f.forecasts.len()
        invariant
            0 <= i <= f.forecasts@.len(),
            r@.len() == i,
            forall|j: int| 0 <= j < i ==> r@[j] == spec_forecast_bind(*f, j),
        decreases f.forecasts@.len() - i,
    {
        let fc = &f.forecasts[i];
        r.push(ForecastRowBind {
            id_spot: f.id_spot,
            id_model: f.wgmodel.id_model,
            forecast_from: fc.forecast_from,
            forecast_for: fc.forecast_for,
            wave: f.wgmodel.wave,
            gust: fc.gust,
            wind_speed: fc.wind_speed,
            wind_direction: fc.wind_direction,
            temperature: fc.temperature,
            relative_humidity: fc.relative_humidity,
            precipitation: fc.precipitation,
            cloud_cover_high: fc.cloud_cover_high,
            cloud_cover_mid: fc.cloud_cover_mid,
            cloud_cover_low: fc.cloud_cover_low,
        });
        i = i + 1;
    }
    r
}

/// One placeholder tuple of the station-readings bulk insert, in column
/// order; the sample instant is its UTC seconds with the station's offset
/// kept beside it.
#[derive(Debug, Clone, Copy, PartialEq, Eq)]
pub struct StationRowBind {
    pub id_station: i64,
    pub timestamp_utc: i64,
    pub tzoffset: i32,
    pub wind_avg: Option<i64>,
    pub wind_max: Option<i64>,
    pub wind_direction: Option<i32>,
    pub temperature: Option<i64>,
}

/// The bind row that sample `i` of `d` persists as, for station `id`.
pub open spec fn spec_station_bind(id: i64, d: WindguruStationData, i: int) -> StationRowBind {
    StationRowBind {
        id_station: id,
        timestamp_utc: d.readings.readings@[i].timestamp_utc,
        tzoffset: d.readings.tzoffset,
        wind_avg: d.readings.readings@[i].wind_avg,
        wind_max: d.readings.readings@[i].wind_max,
        wind_direction: d.readings.readings@[i].wind_direction,
        temperature: d.readings.readings@[i].temperature,
    }
}

/// Flatten a parsed station response into its bulk-insert bind rows.
pub fn station_insert_rows(id: i64, d: &WindguruStationData) -> (r: Vec<StationRowBind>)
    ensures
        r@.len() == d.readings.readings@.len(),
        forall|i: int| 0 <= i < r@.len() ==> r@[i] == spec_station_bind(id, *d, i),
{
    let mut r: Vec<StationRowBind> = Vec::new();
    let mut i: usize = 0;
    while i < d.readings.readings.len()
        invariant
            0 <= i <= d.readings.readings@.len(),
            r@.len() == i,
            forall|j: int| 0 <= j < i ==> r@[j] == spec_station_bind(id, *d, j),
        decreases d.readings.readings@.len() - i,
    {
        let s = &d.readings.readings[i];
        r.push(StationRowBind {
            id_station: id,
            timestamp_utc: s.timestamp_utc,
            tzoffset: d.readings.tzoffset,
            wind_avg: s.wind_avg,
            wind_max: s.wind_max,
            wind_direction: s.wind_direction,
            temperature: s.temperature,
        });
        i = i + 1;
    }
    r
}

/// The natural key of a forecast bind row: one row may exist per spot,
/// model and predicted instant.
pub open spec fn forecast_key(b: ForecastRowBind) -> (i32, i32, i64) {
    (b.id_spot, b.id_model, b.forecast_for)
}

/// The natural key of a station bind row.
pub open spec fn station_key(b: StationRowBind) -> (i64, i64) {
    (b.id_station, b.timestamp_utc)
}

/// What a table keyed by natural key holds after an insert-if-absent of
/// `rows`: every old key, plus every inserted key; a key never doubles.
pub open spec fn upsert_keys<K>(table: Set<K>, rows: Seq<K>) -> Set<K> {
    table.union(rows.to_set())
}

/// Ingesting the same rows twice leaves exactly the table that ingesting
/// them once leaves: re-running an ingest changes nothing.
pub proof fn lemma_ingest_idempotent<K>(table: Set<K>, rows: Seq<K>)
    ensures
        upsert_keys(upsert_keys(table, rows), rows) == upsert_keys(table, rows),
{
    assert(upsert_keys(upsert_keys(table, rows), rows) =~= upsert_keys(table, rows));
}

/// Pushing an element onto a sequence adds exactly it to the set of
/// elements.
pub proof fn lemma_push_to_set<T>(s: Seq<T>, x: T)
    ensures
        s.push(x).to_set() == s.to_set().insert(x),
{
    Seq::<T>::lemma_push_to_set_commute(s, x);
    assert(s.push(x).to_set() =~= s.to_set().insert(x));
}

/// A one-element sequence's element set.
pub proof fn lemma_singleton_to_set<T>(x: T)
    ensures
        seq![x].to_set() == Set::empty().insert(x),
{
    broadcast use vstd::set::group_set_axioms;

    assert(seq![x][0] == x);
    assert forall|a: T| seq![x].to_set().contains(a) implies a == x by {
        let i = choose|i: int| 0 <= i < seq![x].len() && seq![x][i] == a;
    };
    assert(seq![x].to_set() =~= Set::empty().insert(x));
}

/// No element occurs twice.
pub open spec fn nodup<T>(s: Seq<T>) -> bool {
    forall|i: int, j: int| 0 <= i < j < s.len() ==> s[i] != s[j]
}

/// The keys of the rows a forecast persists as.
pub open spec fn forecast_msg_keys(f: WindguruForecasts) -> Seq<(i32, i32, i64)> {
    Seq::new(f.forecasts@.len(), |i: int| forecast_key(spec_forecast_bind(f, i)))
}

/// The keys of the rows a station response persists as, for station `id`.
pub open spec fn station_msg_keys(id: i64, d: WindguruStationData) -> Seq<(i64, i64)> {
    Seq::new(d.readings.readings@.len(), |i: int| station_key(spec_station_bind(id, d, i)))
}

/// An in-memory table of natural keys with insert-if-absent semantics:
/// what the store's unique constraints leave of any ingest. A key is
/// never held twice.
#[derive(Debug, Clone, PartialEq, Eq)]
pub struct MemoryRepository {
    pub spot_ids: Vec<i32>,
    pub model_ids: Vec<i32>,
    pub forecast_keys: Vec<(i32, i32, i64)>,
    pub station_keys: Vec<(i64, i64)>,
}

fn contains_i32(v: &Vec<i32>, x: i32) -> (b: bool)
    ensures
        b == v@.contains(x),
{
    let mut i: usize = 0;
    while i < v.len()
        invariant
            0 <= i <= v@.len(),
            forall|j: int| 0 <= j < i ==> v@[j] != x,
        decreases v@.len() - i,
    {
        if v[i] == x {
            proof {
                assert(v@[i as int] == x);
            }
            return true;
        }
        i = i + 1;
    }
    false
}

fn contains_fkey(v: &Vec<(i32, i32, i64)>, x: (i32, i32, i64)) -> (b: bool)
    ensures
        b == v@.contains(x),
{
    let mut i: usize = 0;
    while i < v.len()
        invariant
            0 <= i <= v@.len(),
            forall|j: int| 0 <= j < i ==> v@[j] != x,
        decreases v@.len() - i,
    {
        let k = v[i];
        if k.0 == x.0 && k.1 == x.1 && k.2 == x.2 {
            proof {
                assert(v@[i as int] == x);
            }
            return true;
        }
        i = i + 1;
    }
    false
}

fn contains_skey(v: &Vec<(i64, i64)>, x: (i64, i64)) -> (b: bool)
    ensures
        b == v@.contains(x),
{
    let mut i: usize = 0;
    while i < v.len()
        invariant
            0 <= i <= v@.len(),
            forall|j: int| 0 <= j < i ==> v@[j] != x,
        decreases v@.len() - i,
    {
        let k = v[i];
        if k.0 == x.0 && k.1 == x.1 {
            proof {
                assert(v@[i as int] == x);
            }
            return true;
        }
        i = i + 1;
    }
    false
}

impl MemoryRepository {
    /// Every table is free of duplicate keys.
    pub open spec fn wf(self) -> bool {
        &&& nodup(self.spot_ids@)
        &&& nodup(self.model_ids@)
        &&& nodup(self.forecast_keys@)
        &&& nodup(self.station_keys@)
    }

    /// An empty store.
    pub fn new() -> (r: Self)
        ensures
            r.wf(),
            r.spot_ids@.len() == 0,
            r.model_ids@.len() == 0,
            r.forecast_keys@.len() == 0,
            r.station_keys@.len() == 0,
    {
        MemoryRepository {
            spot_ids: Vec::new(),
            model_ids: Vec::new(),
            forecast_keys: Vec::new(),
            station_keys: Vec::new(),
        }
    }

    /// Persist one record, idempotently: each table afterwards holds its
    /// old keys plus the record's keys, nothing doubled, and the call
    /// never fails — a duplicate is a no-op, not an error.
    pub fn ingest(&mut self, msg: &IngestMsg) -> (res: Result<(), IngestError>)
        requires
            old(self).wf(),
        ensures
            res is Ok,
            final(self).wf(),
            (match msg {
                IngestMsg::WindguruForecast(m) => {
                    &&& final(self).model_ids@.to_set()
                        == upsert_keys(old(self).model_ids@.to_set(),
                            seq![m.forecast.wgmodel.id_model])
                    &&& final(self).forecast_keys@.to_set()
                        == upsert_keys(old(self).forecast_keys@.to_set(),
                            forecast_msg_keys(m.forecast))
                    &&& final(self).spot_ids == old(self).spot_ids
                    &&& final(self).station_keys == old(self).station_keys
                },
                IngestMsg::WindguruStationReading(id, d) => {
                    &&& final(self).station_keys@.to_set()
                        == upsert_keys(old(self).station_keys@.to_set(),
                            station_msg_keys(*id, *d))
                    &&& final(self).spot_ids == old(self).spot_ids
                    &&& final(self).model_ids == old(self).model_ids
                    &&& final(self).forecast_keys == old(self).forecast_keys
                },
                IngestMsg::WindguruSpot(s) => {
                    &&& final(self).spot_ids@.to_set()
                        == upsert_keys(old(self).spot_ids@.to_set(), seq![s.id])
                    &&& final(self).model_ids == old(self).model_ids
                    &&& final(self).forecast_keys == old(self).forecast_keys
                    &&& final(self).station_keys == old(self).station_keys
                },
            }),
    {
        broadcast use vstd::set::group_set_axioms;

        match msg {
            IngestMsg::WindguruForecast(m) => {
                let model_id = m.forecast.wgmodel.id_model;
                if !contains_i32(&self.model_ids, model_id) {
                    proof {
                        lemma_push_to_set(self.model_ids@, model_id);
                    }
                    self.model_ids.push(model_id);
                }
                proof {
                    lemma_singleton_to_set(m.forecast.wgmodel.id_model);
                    assert(self.model_ids@.to_set()
                        =~= upsert_keys(old(self).model_ids@.to_set(),
                            seq![m.forecast.wgmodel.id_model]));
                }
                let rows = forecast_insert_rows(&m.forecast);
                let ghost keys = forecast_msg_keys(m.forecast);
                let mut i: usize = 0;
                proof {
                    assert(keys.take(0).to_set() =~= Set::<(i32, i32, i64)>::empty());
                    assert(self.forecast_keys@.to_set()
                        =~= upsert_keys(old(self).forecast_keys@.to_set(), keys.take(0)));
                }
                while i < rows.len()
                    invariant
                        0 <= i <= rows@.len(),
                        keys == forecast_msg_keys(m.forecast),
                        rows@.len() == keys.len(),
                        rows@.len() == m.forecast.forecasts@.len(),
                        forall|j: int| 0 <= j < rows@.len()
                            ==> #[trigger] rows@[j] == spec_forecast_bind(m.forecast, j),
                        nodup(self.forecast_keys@),
                        self.forecast_keys@.to_set()
                            == upsert_keys(old(self).forecast_keys@.to_set(),
                                keys.take(i as int)),
                        self.model_ids@.to_set()
                            == upsert_keys(old(self).model_ids@.to_set(),
                                seq![m.forecast.wgmodel.id_model]),
                        nodup(self.model_ids@),
                        self.spot_ids == old(self).spot_ids,
                        self.station_keys == old(self).station_keys,
                    decreases rows@.len() - i,
                {
                    let b = rows[i];
                    let key = (b.id_spot, b.id_model, b.forecast_for);
                    proof {
                        assert(rows@[i as int] == spec_forecast_bind(m.forecast, i as int));
                        assert(keys[i as int] == (m.forecast.id_spot,
                            m.forecast.wgmodel.id_model,
                            m.forecast.forecasts@[i as int].forecast_for));
                        assert(key == keys[i as int]);
                        assert(keys.take(i as int + 1) =~= keys.take(i as int).push(key));
                        lemma_push_to_set(keys.take(i as int), key);
                    }
                    if !contains_fkey(&self.forecast_keys, key) {
                        proof {
                            lemma_push_to_set(self.forecast_keys@, key);
                        }
                        self.forecast_keys.push(key);
                    }
                    proof {
                        assert(self.forecast_keys@.to_set()
                            =~= upsert_keys(old(self).forecast_keys@.to_set(),
                                keys.take(i as int + 1)));
                    }
                    i = i + 1;
                }
                proof {
                    assert(keys.take(keys.len() as int) =~= keys);
                }
                Ok(())
            },
            IngestMsg::WindguruStationReading(id, d) => {
                let rows = station_insert_rows(*id, d);
                let ghost keys = station_msg_keys(*id, *d);
                let mut i: usize = 0;
                proof {
                    assert(keys.take(0).to_set() =~= Set::<(i64, i64)>::empty());
                    assert(self.station_keys@.to_set()
                        =~= upsert_keys(old(self).station_keys@.to_set(), keys.take(0)));
                }
                while i < rows.len()
                    invariant
                        0 <= i <= rows@.len(),
                        keys == station_msg_keys(*id, *d),
                        rows@.len() == keys.len(),
                        rows@.len() == d.readings.readings@.len(),
                        forall|j: int| 0 <= j < rows@.len()
                            ==> #[trigger] rows@[j] == spec_station_bind(*id, *d, j),
                        nodup(self.station_keys@),
                        self.station_keys@.to_set()
                            == upsert_keys(old(self).station_keys@.to_set(),
                                keys.take(i as int)),
                        self.spot_ids == old(self).spot_ids,
                        self.model_ids == old(self).model_ids,
                        self.forecast_keys == old(self).forecast_keys,
                    decreases rows@.len() - i,
                {
                    let b = rows[i];
                    let key = (b.id_station, b.timestamp_utc);
                    proof {
                        assert(rows@[i as int] == spec_station_bind(*id, *d, i as int));
                        assert(keys[i as int] == (*id,
                            d.readings.readings@[i as int].timestamp_utc));
                        assert(key == keys[i as int]);
                        assert(keys.take(i as int + 1) =~= keys.take(i as int).push(key));
                        lemma_push_to_set(keys.take(i as int), key);
                    }
                    if !contains_skey(&self.station_keys, key) {
                        proof {
                            lemma_push_to_set(self.station_keys@, key);
                        }
                        self.station_keys.push(key);
                    }
                    proof {
                        assert(self.station_keys@.to_set()
                            =~= upsert_keys(old(self).station_keys@.to_set(),
                                keys.take(i as int + 1)));
                    }
                    i = i + 1;
                }
                proof {
                    assert(keys.take(keys.len() as int) =~= keys);
                }
                Ok(())
            },
            IngestMsg::WindguruSpot(s) => {
                if !contains_i32(&self.spot_ids, s.id) {
                    proof {
                        lemma_push_to_set(self.spot_ids@, s.id);
                    }
                    self.spot_ids.push(s.id);
                }
                proof {
                    lemma_singleton_to_set(s.id);
                    assert(self.spot_ids@.to_set()
                        =~= upsert_keys(old(self).spot_ids@.to_set(), seq![s.id]));
                }
                Ok(())
            },
        }
    }

    /// How many stored forecast rows carry `key`: one if it was ever
    /// ingested, zero otherwise.
    pub fn count_forecast_rows(&self, key: (i32, i32, i64)) -> (r: usize)
        requires
            self.wf(),
        ensures
            r == 1 <==> self.forecast_keys@.contains(key),
            r == 0 <==> !self.forecast_keys@.contains(key),
    {
        if contains_fkey(&self.forecast_keys, key) {
            1
        } else {
            0
        }
    }
}

/// Re-ingesting one fetched forecast is a no-op: the second pass adds no
/// row, so the store keeps exactly one row per spot, model and predicted
/// instant.
pub proof fn lemma_forecast_reingest_is_noop(table: Set<(i32, i32, i64)>, f: WindguruForecasts)
    ensures
        upsert_keys(upsert_keys(table, forecast_msg_keys(f)), forecast_msg_keys(f))
            == upsert_keys(table, forecast_msg_keys(f)),
{
    lemma_ingest_idempotent(table, forecast_msg_keys(f));
}

/// Classify a storage outcome. The storage engine reports a uniqueness
/// violation as SQLSTATE 23505; that is the idempotency mechanism, so it
/// is success. Any other engine-reported error surfaces structured; a
/// failure without a code surfaces as its message.
pub fn handle_db_outcome(r: Result<u64, DbErrorInfo>) -> (res: Result<(), IngestError>)
    ensures
        r is Ok ==> res is Ok,
        (match r {
            Err(e) => match e.code {
                Some(c) => if c@ == "23505"@ {
                    res is Ok
                } else {
                    res == Err::<(), IngestError>(IngestError::Database(e))
                },
                None => res == Err::<(), IngestError>(IngestError::Other(e.message)),
            },
            Ok(_) => true,
        }),
{
    match r {
        Ok(_) => Ok(()),
        Err(e) => {
            let dup = "23505".to_owned();
            match &e.code {
                Some(c) => {
                    let is_dup = *c == dup;
                    proof {
                        assert(is_dup == (e.code.unwrap()@ == "23505"@));
                    }
                    if is_dup {
                        Ok(())
                    } else {
                        Err(IngestError::Database(e))
                    }
                },
                None => {
                    let DbErrorInfo { code: _, message } = e;
                    Err(IngestError::Other(message))
                },
            }
        },
    }
}

} // verus!
