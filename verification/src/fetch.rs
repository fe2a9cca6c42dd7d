//! Request construction and retrieval decisions.
//!
//! Everything the provider protocol decides is here, as verified code on
//! plain values: the API and priming URLs, the exact query parameter
//! lists of each request kind, the cookie header assembled from a priming
//! response, and the choice of per-model parameters out of the metadata.
//! The shell around the library only sends what this module builds and
//! hands back what arrived.

use vstd::prelude::*;
use vstd::string::StringExecFns;
use crate::errors::FetchError;
use crate::errors::ParseError;
use crate::forecast::ForecastMetadata;
use crate::forecast::ForecastParamsMetadata;
use crate::forecast::ForecastSpotResponse;
use crate::forecast::IdModel;
use crate::forecast::IdSpot;
use crate::forecast::Spot;
use crate::numtext::dec_digits;
use crate::numtext::dec_int;
use crate::numtext::fmt_i64;
use crate::numtext::fmt_u64;
use crate::station::WindguruStationFetchParams;
use crate::time::civil_valid;
use crate::time::fmt_rfc3339;
use crate::time::rfc3339_text;

verus! {

/// The provider's fixed `Referer` origin.
pub fn referer() -> (r: &'static str)
    ensures
        r@ == "https://www.windguru.cz"@,
{
    "https://www.windguru.cz"
}

/// The provider's API resource under a base URL.
pub fn api_url(base: &str) -> (r: String)
    ensures
        r@ == base@ + "/int/iapi.php"@,
{
    let mut r = base.to_owned();
    r.append("/int/iapi.php");
    r
}

/// The priming (cookie-issuing) resource for a spot: the base URL with
/// the spot id as its path.
pub fn primer_url(base: &str, spot: IdSpot) -> (r: String)
    ensures
        r@ == base@ + "/"@ + dec_int(spot as int),
{
    let mut r = base.to_owned();
    r.append("/");
    r.append(fmt_i64(spot as i64).as_str());
    r
}

/// `"name=value"` for one cookie.
pub open spec fn cookie_pair_text(p: (String, String)) -> Seq<char> {
    p.0@ + "="@ + p.1@
}

/// All cookies joined with `"; "`, in order.
pub open spec fn cookies_text(s: Seq<(String, String)>) -> Seq<char>
    decreases s.len(),
{
    if s.len() == 0 {
        Seq::empty()
    } else if s.len() == 1 {
        cookie_pair_text(s[0])
    } else {
        cookies_text(s.drop_last()) + "; "@ + cookie_pair_text(s.last())
    }
}

/// Build the `Cookie` header value from a priming response's cookies.
/// A response that carried none is a `MissingCookies` failure.
pub fn cookies_header(pairs: &Vec<(String, String)>) -> (r: Result<String, FetchError>)
    ensures
        r is Ok <==> pairs@.len() > 0,
        r is Ok ==> r.unwrap()@ == cookies_text(pairs@),
        pairs@.len() == 0 ==> r == Err::<String, FetchError>(FetchError::MissingCookies),
{
    if pairs.len() == 0 {
        return Err(FetchError::MissingCookies);
    }
    let mut out = String::new();
    let mut i: usize = 0;
    while i < pairs.len()
        invariant
            0 <= i <= pairs@.len(),
            pairs@.len() > 0,
            out@ == cookies_text(pairs@.take(i as int)),
        decreases pairs@.len() - i,
    {
        if i > 0 {
            out.append("; ");
        }
        out.append(pairs[i].0.as_str());
        out.append("=");
        out.append(pairs[i].1.as_str());
        proof {
            let pre = pairs@.take(i as int);
            let cur = pairs@.take(i as int + 1);
            assert(cur.drop_last() =~= pre);
            assert(cur.last() == pairs@[i as int]);
            assert(out@ =~= cookies_text(cur));
        }
        i = i + 1;
    }
    proof {
        assert(pairs@.take(pairs@.len() as int) =~= pairs@);
    }
    Ok(out)
}

/// An HTTP status that means the request failed: a client or server
/// error.
pub open spec fn status_is_error(status: u16) -> bool {
    400 <= status < 600
}

/// Classify an HTTP response status: an error status after a successful
/// send is a request failure naming that status; anything else is
/// success.
pub fn check_status(status: u16) -> (r: Result<(), FetchError>)
    ensures
        r is Ok <==> !status_is_error(status),
        r is Err ==> (r.unwrap_err() matches FetchError::RequestFailed(m)
            && m@ == "error status "@ + dec_digits(status as nat)),
{
    if status >= 400 && status < 600 {
        let mut m = "error status ".to_owned();
        m.append(fmt_u64(status as u64).as_str());
        Err(FetchError::RequestFailed(m))
    } else {
        Ok(())
    }
}

/// Which operation a request selects, spelled as the provider expects.
#[derive(Debug, Clone, Copy, PartialEq, Eq, Structural)]
pub enum WindguruMethod {
    Forecast,
    ForecastSpot,
}

/// The provider's text for a method selector.
pub fn method_text(m: WindguruMethod) -> (r: &'static str)
    ensures
        m is Forecast ==> r@ == "forecast"@,
        m is ForecastSpot ==> r@ == "forecast_spot"@,
{
    match m {
        WindguruMethod::Forecast => "forecast",
        WindguruMethod::ForecastSpot => "forecast_spot",
    }
}

/// The query of a metadata request: a method selector and a spot.
#[derive(Debug, Clone, Copy, PartialEq, Eq, Structural)]
pub struct ForecastSpotQueryParams {
    pub method: WindguruMethod,
    pub id_spot: IdSpot,
}

impl ForecastSpotQueryParams {
    /// The exact key/value pairs of a metadata request's query string.
    pub fn to_pairs(&self) -> (r: Vec<(String, String)>)
        ensures
            r@.len() == 2,
            r@[0].0@ == "q"@,
            self.method is Forecast ==> r@[0].1@ == "forecast"@,
            self.method is ForecastSpot ==> r@[0].1@ == "forecast_spot"@,
            r@[1].0@ == "id_spot"@,
            r@[1].1@ == dec_int(self.id_spot as int),
    {
        let mut r: Vec<(String, String)> = Vec::new();
        r.push(("q".to_owned(), method_text(self.method).to_owned()));
        r.push(("id_spot".to_owned(), fmt_i64(self.id_spot as i64)));
        r
    }
}

/// The query of a forecast-data request: the model's run definition and
/// init string from the metadata, the spot, the model, a fixed cache
/// time-to-live hint and the metadata's cache-fix token.
#[derive(Debug, Clone, PartialEq, Eq)]
pub struct ForecastQueryParams {
    pub rundef: String,
    pub initstr: String,
    pub forecast_spot: ForecastSpotQueryParams,
    pub id_model: IdModel,
    pub wgcacheable: u32,
    pub cachefix: String,
}

impl ForecastQueryParams {
    /// The exact key/value pairs of a forecast-data request's query string.
    pub fn to_pairs(&self) -> (r: Vec<(String, String)>)
        ensures
            r@.len() == 7,
            r@[0].0@ == "rundef"@ && r@[0].1@ == self.rundef@,
            r@[1].0@ == "initstr"@ && r@[1].1@ == self.initstr@,
            r@[2].0@ == "q"@,
            self.forecast_spot.method is Forecast ==> r@[2].1@ == "forecast"@,
            self.forecast_spot.method is ForecastSpot ==> r@[2].1@ == "forecast_spot"@,
            r@[3].0@ == "id_spot"@ && r@[3].1@ == dec_int(self.forecast_spot.id_spot as int),
            r@[4].0@ == "id_model"@ && r@[4].1@ == dec_int(self.id_model as int),
            r@[5].0@ == "WGCACHEABLE"@ && r@[5].1@ == dec_digits(self.wgcacheable as nat),
            r@[6].0@ == "cachefix"@ && r@[6].1@ == self.cachefix@,
    {
        let mut r: Vec<(String, String)> = Vec::new();
        r.push(("rundef".to_owned(), self.rundef.clone()));
        r.push(("initstr".to_owned(), self.initstr.clone()));
        r.push(("q".to_owned(), method_text(self.forecast_spot.method).to_owned()));
        r.push(("id_spot".to_owned(), fmt_i64(self.forecast_spot.id_spot as i64)));
        r.push(("id_model".to_owned(), fmt_i64(self.id_model as i64)));
        r.push(("WGCACHEABLE".to_owned(), fmt_u64(self.wgcacheable as u64)));
        r.push(("cachefix".to_owned(), self.cachefix.clone()));
        r
    }
}

/// The exact key/value pairs of a station-data request's query string.
pub fn station_query_pairs(p: &WindguruStationFetchParams) -> (r: Vec<(String, String)>)
    requires
        civil_valid(p.from),
        civil_valid(p.to),
    ensures
        r@.len() == 6,
        r@[0].0@ == "id_station"@ && r@[0].1@ == dec_int(p.id_station as int),
        r@[1].0@ == "from"@ && r@[1].1@ == rfc3339_text(p.from),
        r@[2].0@ == "to"@ && r@[2].1@ == rfc3339_text(p.to),
        r@[3].0@ == "avg_minutes"@ && r@[3].1@ == dec_digits(p.avg_minutes as nat),
        r@[4].0@ == "q"@ && r@[4].1@ == p.method@,
        r@[5].0@ == "graph_info"@ && r@[5].1@ == dec_digits(p.graph_info as nat),
{
    let mut r: Vec<(String, String)> = Vec::new();
    r.push(("id_station".to_owned(), fmt_i64(p.id_station as i64)));
    r.push(("from".to_owned(), fmt_rfc3339(&p.from)));
    r.push(("to".to_owned(), fmt_rfc3339(&p.to)));
    r.push(("avg_minutes".to_owned(), fmt_u64(p.avg_minutes as u64)));
    r.push(("q".to_owned(), p.method.clone()));
    r.push(("graph_info".to_owned(), fmt_u64(p.graph_info as u64)));
    r
}

/// First descriptor in `ps` for model `id`.
pub open spec fn first_param(ps: Seq<ForecastParamsMetadata>, id: IdModel)
    -> Option<ForecastParamsMetadata>
    decreases ps.len(),
{
    if ps.len() == 0 {
        None
    } else if ps[0].id_model == id {
        Some(ps[0])
    } else {
        first_param(ps.drop_first(), id)
    }
}

/// The model-table entry that a lookup for `model` resolves to: the last
/// entry for that model that has a matching descriptor (later entries
/// shadow earlier ones, as a keyed collection built front to back would).
pub open spec fn chosen_tab(tabs: Seq<ForecastMetadata>, model: IdModel)
    -> Option<ForecastMetadata>
    decreases tabs.len(),
{
    if tabs.len() == 0 {
        None
    } else if tabs.last().id_model == model && first_param(tabs.last().params@, model) is Some {
        Some(tabs.last())
    } else {
        chosen_tab(tabs.drop_last(), model)
    }
}

/// Index of the first descriptor for `id`.
fn find_param(ps: &Vec<ForecastParamsMetadata>, id: IdModel) -> (r: Option<usize>)
    ensures
        r is Some <==> first_param(ps@, id) is Some,
        r is Some ==> r.unwrap() < ps@.len()
            && first_param(ps@, id) == Some(ps@[r.unwrap() as int]),
{
    let mut i: usize = 0;
    proof {
        assert(ps@.skip(0) =~= ps@);
    }
    while i < ps.len()
        invariant
            0 <= i <= ps@.len(),
            first_param(ps@, id) == first_param(ps@.skip(i as int), id),
        decreases ps@.len() - i,
    {
        proof {
            assert(ps@.skip(i as int)[0] == ps@[i as int]);
            assert(ps@.skip(i as int).drop_first() =~= ps@.skip(i as int + 1));
        }
        if ps[i].id_model == id {
            return Some(i);
        }
        i = i + 1;
    }
    None
}

/// Resolve the query parameters for `model` from the metadata's model
/// table, exactly as a lookup in a map built from the table would.
pub fn query_params_for_model(tabs: &Vec<ForecastMetadata>, model: IdModel)
    -> (r: Option<ForecastQueryParams>)
    ensures
        r is Some <==> chosen_tab(tabs@, model) is Some,
        r is Some ==> ({
            let tab = chosen_tab(tabs@, model).unwrap();
            let pm = first_param(tab.params@, model).unwrap();
            let q = r.unwrap();
            q.id_model == model
                && q.forecast_spot.id_spot == tab.id_spot
                && q.forecast_spot.method is Forecast
                && q.rundef@ == pm.rundef@
                && q.initstr@ == pm.initstr@
                && q.cachefix@ == pm.cachefix@
                && q.wgcacheable == 21600
        }),
{
    let ghost all = tabs@;
    let mut best: Option<(usize, usize)> = None;
    let mut i: usize = 0;
    proof {
        assert(all.take(0) =~= Seq::<ForecastMetadata>::empty());
    }
    while i < tabs.len()
        invariant
            0 <= i <= all.len(),
            tabs@ == all,
            (match best {
                None => chosen_tab(all.take(i as int), model) is None,
                Some((t, p)) => 0 <= t < i
                    && chosen_tab(all.take(i as int), model) == Some(all[t as int])
                    && all[t as int].id_model == model
                    && p < all[t as int].params@.len()
                    && first_param(all[t as int].params@, model)
                        == Some(all[t as int].params@[p as int]),
            }),
        decreases all.len() - i,
    {
        proof {
            let cur = all.take(i as int + 1);
            assert(cur.drop_last() =~= all.take(i as int));
            assert(cur.last() == all[i as int]);
        }
        if tabs[i].id_model == model {
            match find_param(&tabs[i].params, model) {
                Some(p) => { best = Some((i, p)); },
                None => {},
            }
        }
        i = i + 1;
    }
    proof {
        assert(all.take(all.len() as int) =~= all);
    }
    match best {
        None => None,
        Some((t, p)) => {
            let tab = &tabs[t];
            let pm = &tab.params[p];
            Some(ForecastQueryParams {
                rundef: pm.rundef.clone(),
                initstr: pm.initstr.clone(),
                forecast_spot: ForecastSpotQueryParams {
                    method: WindguruMethod::Forecast,
                    id_spot: tab.id_spot,
                },
                id_model: model,
                wgcacheable: 21600,
                cachefix: pm.cachefix.clone(),
            })
        },
    }
}

/// Decide a forecast-data request from a decoded metadata response: pick
/// the one spot (zero or several are ambiguous) and resolve the request
/// parameters for the model being fetched; a model the metadata does not
/// describe cannot be requested.
pub fn plan_forecast_request(resp: ForecastSpotResponse, model: IdModel)
    -> (r: Result<(Spot, ForecastQueryParams), FetchError>)
    ensures
        r is Ok <==> resp.spots@.len() == 1 && chosen_tab(resp.models@, model) is Some,
        r is Ok ==> r.unwrap().0 == resp.spots@[0],
        r is Ok ==> ({
            let tab = chosen_tab(resp.models@, model).unwrap();
            let pm = first_param(tab.params@, model).unwrap();
            let q = r.unwrap().1;
            q.id_model == model
                && q.forecast_spot.id_spot == tab.id_spot
                && q.forecast_spot.method is Forecast
                && q.rundef@ == pm.rundef@
                && q.initstr@ == pm.initstr@
                && q.cachefix@ == pm.cachefix@
                && q.wgcacheable == 21600
        }),
        resp.spots@.len() != 1 ==> r == Err::<(Spot, ForecastQueryParams), FetchError>(
            FetchError::Parse(ParseError::AmbiguousSpot(resp.spots@.len() as usize))),
        resp.spots@.len() == 1 && chosen_tab(resp.models@, model) is None
            ==> r.unwrap_err() is Other,
{
    let params = query_params_for_model(&resp.models, model);
    let spot = match Spot::from_entries(resp.spots) {
        Ok(s) => s,
        Err(e) => { return Err(FetchError::Parse(e)); },
    };
    match params {
        Some(q) => Ok((spot, q)),
        None => Err(FetchError::Other("model not described by metadata".to_owned())),
    }
}

} // verus!
