//! One run across all configured targets: the work list, and the
//! bookkeeping of every settled task.
//!
//! The shell dispatches the built requests concurrently and feeds every
//! settled fetch or ingest back into the summary; all decisions — what to
//! fetch, whether a settled fetch leads to an ingest, what is counted and
//! recorded — are made here. One target's failure only marks that target;
//! it never removes or changes another target's work.

use vstd::prelude::*;
use crate::errors::FetchError;
use crate::errors::IngestError;
use crate::forecast::IdSpot;
use crate::ingest::IngestMsg;
use crate::station::IdStation;
use crate::station::WindguruStationFetchParams;
use crate::time::CivilDateTime;
use crate::time::civil_valid;

verus! {

/// The request to fetch one spot's forecast.
#[derive(Debug, Clone, Copy, PartialEq, Eq, Structural)]
pub struct WindguruForecastFetchMsg {
    pub spot: IdSpot,
}

/// One unit of fetch work.
#[derive(Debug, Clone, PartialEq, Eq)]
pub enum FetchMsg {
    WindguruForecast(WindguruForecastFetchMsg),
    WindguruStation(WindguruStationFetchParams),
}

impl FetchMsg {
    /// A short name for logs, one per variant.
    pub fn label(&self) -> (r: &'static str)
        ensures
            self is WindguruForecast ==> r@ == "WindguruForecastFetchMsg"@,
            self is WindguruStation ==> r@ == "WindguruStationFetchMsg"@,
    {
        match self {
            FetchMsg::WindguruForecast(_) => "WindguruForecastFetchMsg",
            FetchMsg::WindguruStation(_) => "WindguruStationFetchMsg",
        }
    }
}

/// Which configured target a piece of work belongs to.
#[derive(Debug, Clone, Copy, PartialEq, Eq, Structural)]
pub enum TargetRef {
    Spot(IdSpot),
    Station(IdStation),
}

/// The target a fetch request is for.
pub fn target_of(msg: &FetchMsg) -> (t: TargetRef)
    ensures
        (match msg {
            FetchMsg::WindguruForecast(m) => t == TargetRef::Spot(m.spot),
            FetchMsg::WindguruStation(p) => t == TargetRef::Station(p.id_station),
        }),
{
    match msg {
        FetchMsg::WindguruForecast(m) => TargetRef::Spot(m.spot),
        FetchMsg::WindguruStation(p) => TargetRef::Station(p.id_station),
    }
}

/// One configured station target: the station and the window to fetch.
#[derive(Debug, Clone, Copy, PartialEq, Eq, Structural)]
pub struct StationTarget {
    pub id_station: IdStation,
    pub from: CivilDateTime,
    pub to: CivilDateTime,
    pub avg_minutes: u32,
}

/// The day that `now` falls in, as a fetch window: its midnight, and one
/// minute before the next midnight.
pub fn get_yesterday_date_bounds(now: &CivilDateTime) -> (r: (CivilDateTime, CivilDateTime))
    requires
        civil_valid(*now),
    ensures
        (r.0 == CivilDateTime {
            year: now.year, month: now.month, day: now.day,
            hour: 0, minute: 0, second: 0,
        }),
        (r.1 == CivilDateTime {
            year: now.year, month: now.month, day: now.day,
            hour: 23, minute: 59, second: 0,
        }),
        civil_valid(r.0),
        civil_valid(r.1),
{
    let start = CivilDateTime {
        year: now.year, month: now.month, day: now.day,
        hour: 0, minute: 0, second: 0,
    };
    let end = CivilDateTime {
        year: now.year, month: now.month, day: now.day,
        hour: 23, minute: 59, second: 0,
    };
    (start, end)
}

/// Build the run's work list: one forecast request per spot, then one
/// station request per station target, each with the provider's fixed
/// `station_data` selector.
pub fn build_fetch_msgs(spots: &Vec<IdSpot>, stations: &Vec<StationTarget>)
    -> (r: Vec<FetchMsg>)
    ensures
        r@.len() == spots@.len() + stations@.len(),
        forall|i: int| 0 <= i < spots@.len()
            ==> r@[i] == FetchMsg::WindguruForecast(
                WindguruForecastFetchMsg { spot: spots@[i] }),
        forall|j: int| 0 <= j < stations@.len()
            ==> (match #[trigger] r@[spots@.len() + j] {
                FetchMsg::WindguruStation(p) => {
                    &&& p.id_station == stations@[j].id_station
                    &&& p.from == stations@[j].from
                    &&& p.to == stations@[j].to
                    &&& p.avg_minutes == stations@[j].avg_minutes
                    &&& p.method@ == "station_data"@
                    &&& p.graph_info == 1
                },
                _ => false,
            }),
{
    let mut r: Vec<FetchMsg> = Vec::new();
    let mut i: usize = 0;
    while i < spots.len()
        invariant
            0 <= i <= spots@.len(),
            r@.len() == i,
            forall|k: int| 0 <= k < i
                ==> r@[k] == FetchMsg::WindguruForecast(
                    WindguruForecastFetchMsg { spot: spots@[k] }),
        decreases spots@.len() - i,
    {
        r.push(FetchMsg::WindguruForecast(WindguruForecastFetchMsg { spot: spots[i] }));
        i = i + 1;
    }
    let mut j: usize = 0;
    while j < stations.len()
        invariant
            0 <= j <= stations@.len(),
            r@.len() == spots@.len() + j,
            forall|k: int| 0 <= k < spots@.len()
                ==> r@[k] == FetchMsg::WindguruForecast(
                    WindguruForecastFetchMsg { spot: spots@[k] }),
            forall|k: int| 0 <= k < j
                ==> (match #[trigger] r@[spots@.len() + k] {
                    FetchMsg::WindguruStation(p) => {
                        &&& p.id_station == stations@[k].id_station
                        &&& p.from == stations@[k].from
                        &&& p.to == stations@[k].to
                        &&& p.avg_minutes == stations@[k].avg_minutes
                        &&& p.method@ == "station_data"@
                        &&& p.graph_info == 1
                    },
                    _ => false,
                }),
        decreases stations@.len() - j,
    {
        let t = &stations[j];
        let mut params = WindguruStationFetchParams::default();
        params.id_station = t.id_station;
        params.from = t.from;
        params.to = t.to;
        params.avg_minutes = t.avg_minutes;
        r.push(FetchMsg::WindguruStation(params));
        j = j + 1;
    }
    r
}

/// What one run did, with context for every failure.
#[derive(Debug, Clone, PartialEq, Eq)]
pub struct RunSummary {
    pub fetch_ok: u64,
    pub fetch_err: u64,
    pub ingest_ok: u64,
    pub ingest_err: u64,
    pub fetch_failures: Vec<(TargetRef, FetchError)>,
    pub ingest_failures: Vec<(TargetRef, IngestError)>,
}

impl RunSummary {
    /// Failure counts agree with the recorded failures.
    pub open spec fn wf(self) -> bool {
        &&& self.fetch_err == self.fetch_failures@.len()
        &&& self.ingest_err == self.ingest_failures@.len()
    }

    /// An empty summary.
    pub fn new() -> (r: Self)
        ensures
            r.wf(),
            r.fetch_ok == 0 && r.fetch_err == 0 && r.ingest_ok == 0 && r.ingest_err == 0,
            r.fetch_failures@.len() == 0 && r.ingest_failures@.len() == 0,
    {
        RunSummary {
            fetch_ok: 0,
            fetch_err: 0,
            ingest_ok: 0,
            ingest_err: 0,
            fetch_failures: Vec::new(),
            ingest_failures: Vec::new(),
        }
    }

    /// Nothing at all succeeded: a fully failed run, as opposed to a
    /// partially failed one.
    pub fn all_failed(&self) -> (r: bool)
        ensures
            r == (self.fetch_ok == 0 && self.ingest_ok == 0
                && (self.fetch_err > 0 || self.ingest_err > 0)),
    {
        self.fetch_ok == 0 && self.ingest_ok == 0
            && (self.fetch_err > 0 || self.ingest_err > 0)
    }

    /// Record one settled fetch. A success is counted and its record is
    /// handed back to be ingested; a failure is counted and kept with its
    /// target, and nothing is ingested for it. Nothing else changes, so
    /// one target's outcome never touches another's bookkeeping.
    pub fn on_fetch_settled(&mut self, target: TargetRef,
        outcome: Result<IngestMsg, FetchError>) -> (next: Option<IngestMsg>)
        requires
            old(self).fetch_ok < u64::MAX,
            old(self).fetch_err < u64::MAX,
        ensures
            final(self).ingest_ok == old(self).ingest_ok,
            final(self).ingest_err == old(self).ingest_err,
            final(self).ingest_failures == old(self).ingest_failures,
            old(self).wf() ==> final(self).wf(),
            (match outcome {
                Ok(m) => {
                    &&& next == Some(m)
                    &&& final(self).fetch_ok == old(self).fetch_ok + 1
                    &&& final(self).fetch_err == old(self).fetch_err
                    &&& final(self).fetch_failures == old(self).fetch_failures
                },
                Err(e) => {
                    &&& next is None
                    &&& final(self).fetch_ok == old(self).fetch_ok
                    &&& final(self).fetch_err == old(self).fetch_err + 1
                    &&& final(self).fetch_failures@
                        == old(self).fetch_failures@.push((target, e))
                },
            }),
    {
        match outcome {
            Ok(m) => {
                self.fetch_ok = self.fetch_ok + 1;
                Some(m)
            },
            Err(e) => {
                self.fetch_err = self.fetch_err + 1;
                self.fetch_failures.push((target, e));
                None
            },
        }
    }

    /// Record one settled ingest.
    pub fn on_ingest_settled(&mut self, target: TargetRef,
        outcome: Result<(), IngestError>)
        requires
            old(self).ingest_ok < u64::MAX,
            old(self).ingest_err < u64::MAX,
        ensures
            final(self).fetch_ok == old(self).fetch_ok,
            final(self).fetch_err == old(self).fetch_err,
            final(self).fetch_failures == old(self).fetch_failures,
            old(self).wf() ==> final(self).wf(),
            (match outcome {
                Ok(_) => {
                    &&& final(self).ingest_ok == old(self).ingest_ok + 1
                    &&& final(self).ingest_err == old(self).ingest_err
                    &&& final(self).ingest_failures == old(self).ingest_failures
                },
                Err(e) => {
                    &&& final(self).ingest_ok == old(self).ingest_ok
                    &&& final(self).ingest_err == old(self).ingest_err + 1
                    &&& final(self).ingest_failures@
                        == old(self).ingest_failures@.push((target, e))
                },
            }),
    {
        match outcome {
            Ok(_) => {
                self.ingest_ok = self.ingest_ok + 1;
            },
            Err(e) => {
                self.ingest_err = self.ingest_err + 1;
                self.ingest_failures.push((target, e));
            },
        }
    }
}

} // verus!
