//! Decoding provider payloads from JSON text.
//!
//! The decoder itself is `serde_json`; its tree is opaque here, so each
//! node is rebuilt as a plain [`JsonVal`] through small trusted accessors
//! and every shape decision is then made by the verified parsers. The
//! decode is a function of the text alone, so its outcome carries a name:
//! `json_doc` is the document the text denotes (`None` for malformed
//! text), `value_rebuilt` the plain reading of one decoded node. Each
//! accessor's contract ties what it returns to `value_rebuilt`, and the
//! verified rebuild is proved to produce exactly that reading, up to
//! `jv_sim` (string contents rather than string identity). Numbers keep
//! their integer value when they have one; any other number is read from
//! its JSON text into thousandths, and one whose text does not fit that
//! form (for instance exponent notation far outside the providers'
//! ranges) reads as an empty cell.

use vstd::prelude::*;
use crate::errors::ParseError;
use crate::forecast::WindguruForecasts;
use crate::forecast::ForecastSpotResponse;
use crate::forecast::forecasts_match;
use crate::forecast::forecasts_ok;
use crate::forecast::lemma_sim_forecasts;
use crate::forecast::lemma_sim_spot_response;
use crate::forecast::parse_forecasts;
use crate::forecast::parse_spot_response;
use crate::forecast::spot_response_match;
use crate::forecast::spot_response_ok;
use crate::json::JsonVal;
use crate::json::jv_sim;
use crate::numtext::parse_dec_milli;
use crate::numtext::spec_milli;
use crate::station::WindguruStationData;
use crate::station::lemma_sim_station;
use crate::station::parse_station;
use crate::station::station_body_ok;
use crate::station::station_match;

verus! {

#[verifier::external_type_specification]
#[verifier::external_body]
pub struct ExValue(serde_json::Value);

#[verifier::external_type_specification]
#[verifier::external_body]
pub struct ExJsonError(serde_json::Error);

/// The document that JSON text denotes, as a plain value: what decoding
/// the text and reading every node yields; `None` where the decoder
/// fails (malformed text, or nesting beyond its recursion limit).
pub uninterp spec fn json_doc(s: Seq<char>) -> Option<JsonVal>;

/// The plain reading of one decoded node: scalars as themselves, a
/// number the decoder holds as a machine integer as `Int`, any other
/// number as its text's thousandths
/// (`Dec`, or `Null` when the text does not fit that form), arrays and
/// objects element by element.
pub uninterp spec fn value_rebuilt(v: serde_json::Value) -> JsonVal;

/// The nesting height of a decoded node: scalars at zero, a container
/// above all its children.
pub uninterp spec fn value_depth(v: serde_json::Value) -> nat;

/// The JSON text of a decoded number node.
pub uninterp spec fn number_text(v: serde_json::Value) -> Seq<char>;

/// Relies on `serde_json::from_str::<serde_json::Value>`: decodes JSON
/// text into the crate's value tree, or fails (malformed text, or nesting
/// beyond the decoder's recursion limit).
/// The decode depends on the text alone, so on success the tree reads as
/// `json_doc` of the text; the decoder's own recursion limit keeps any
/// tree it returns within nesting height 128.
#[verifier::external_body]
fn decode_value(s: &str) -> (r: Result<serde_json::Value, serde_json::Error>)
    ensures
        (match r {
            Ok(v) => json_doc(s@) == Some(value_rebuilt(v)) && value_depth(v) <= 128,
            Err(_) => json_doc(s@) is None,
        }),
{
    serde_json::from_str(s)
}

/// Relies on `serde_json::Error`'s `Display`: the decoder's message text.
/// The message is free-form, so nothing is stated of it.
#[verifier::external_body]
fn json_error_text(e: &serde_json::Error) -> String {
    format!("{}", e)
}

/// Relies on `serde_json::Value::is_null`: a null node reads as `Null`.
#[verifier::external_body]
fn value_is_null(v: &serde_json::Value) -> (r: bool)
    ensures
        r ==> value_rebuilt(*v) is Null,
{
    v.is_null()
}

/// Relies on `serde_json::Value::as_bool`: `Some` exactly on a boolean
/// node, which reads as that boolean.
#[verifier::external_body]
fn value_as_bool(v: &serde_json::Value) -> (r: Option<bool>)
    ensures
        (match r {
            Some(b) => value_rebuilt(*v) == JsonVal::Bool(b),
            None => !(value_rebuilt(*v) is Bool),
        }),
{
    v.as_bool()
}

/// Relies on `serde_json::Value::as_i64`: `Some` exactly on an integer
/// number that fits the word, which reads as that integer.
#[verifier::external_body]
fn value_as_i64(v: &serde_json::Value) -> (r: Option<i64>)
    ensures
        (match r {
            Some(i) => value_rebuilt(*v) == JsonVal::Int(i),
            None => !(value_rebuilt(*v) is Int),
        }),
{
    v.as_i64()
}

/// Relies on `serde_json::Value::is_number`: a number that is not an
/// `Int` reads as its text's thousandths (or `Null` when the text does
/// not fit that form), and only numbers read as `Int` or `Dec`.
#[verifier::external_body]
fn value_is_number(v: &serde_json::Value) -> (r: bool)
    ensures
        r && !(value_rebuilt(*v) is Int) ==> value_rebuilt(*v) == (match spec_milli(
            number_text(*v)) {
            Some(m) => JsonVal::Dec(m as i64),
            None => JsonVal::Null,
        }),
        !r ==> !(value_rebuilt(*v) is Int) && !(value_rebuilt(*v) is Dec),
{
    v.is_number()
}

/// Relies on `serde_json::Value`'s `Display`: a number node renders as
/// its JSON number text.
#[verifier::external_body]
fn value_number_text(v: &serde_json::Value) -> (r: String)
    ensures
        r@ == number_text(*v),
{
    format!("{}", v)
}

/// Relies on `serde_json::Value::as_str`: `Some` exactly on a string
/// node, which reads as that text.
#[verifier::external_body]
fn value_as_str<'a>(v: &'a serde_json::Value) -> (r: Option<&'a str>)
    ensures
        (match r {
            Some(s) => value_rebuilt(*v) matches JsonVal::Str(t) && t@ == s@,
            None => !(value_rebuilt(*v) is Str),
        }),
{
    v.as_str()
}

/// Relies on `serde_json::Value::as_array`: `Some` exactly on an array
/// node, which reads element by element; children sit strictly below
/// their container's nesting height.
#[verifier::external_body]
fn value_as_array<'a>(v: &'a serde_json::Value) -> (r: Option<&'a Vec<serde_json::Value>>)
    ensures
        (match r {
            Some(a) => value_rebuilt(*v) matches JsonVal::Arr(items)
                && items@.len() == a@.len()
                && (forall|i: int| 0 <= i < a@.len()
                    ==> #[trigger] items@[i] == value_rebuilt(a@[i]))
                && (forall|i: int| 0 <= i < a@.len()
                    ==> value_depth(#[trigger] a@[i]) < value_depth(*v)),
            None => !(value_rebuilt(*v) is Arr),
        }),
{
    v.as_array()
}

/// Relies on `serde_json::Value::as_object` and `serde_json::Map::iter`:
/// `Some` exactly on an object node, whose entries read pairwise in the
/// map's order (keys cloned, values borrowed); children sit strictly
/// below their container's nesting height.
#[verifier::external_body]
fn value_object_entries<'a>(v: &'a serde_json::Value)
    -> (r: Option<Vec<(String, &'a serde_json::Value)>>)
    ensures
        (match r {
            Some(es) => value_rebuilt(*v) matches JsonVal::Obj(pairs)
                && pairs@.len() == es@.len()
                && (forall|i: int| 0 <= i < es@.len()
                    ==> (#[trigger] pairs@[i]).0@ == es@[i].0@
                        && pairs@[i].1 == value_rebuilt(*es@[i].1))
                && (forall|i: int| 0 <= i < es@.len()
                    ==> value_depth(*(#[trigger] es@[i]).1) < value_depth(*v)),
            None => !(value_rebuilt(*v) is Obj),
        }),
{
    v.as_object().map(|m| m.iter().map(|(k, x)| (k.clone(), x)).collect())
}

/// Rebuild one decoded node as a plain value: exactly its reading, up to
/// string identity.
fn value_to_jsonval(v: &serde_json::Value, depth: u32) -> (r: JsonVal)
    requires
        value_depth(*v) < depth,
    ensures
        jv_sim(r, value_rebuilt(*v)),
    decreases depth,
{
    if value_is_null(v) {
        return JsonVal::Null;
    }
    match value_as_bool(v) {
        Some(b) => { return JsonVal::Bool(b); },
        None => {},
    }
    match value_as_i64(v) {
        Some(i) => { return JsonVal::Int(i); },
        None => {},
    }
    if value_is_number(v) {
        let t = value_number_text(v);
        return match parse_dec_milli(t.as_str()) {
            Some(m) => JsonVal::Dec(m),
            None => JsonVal::Null,
        };
    }
    match value_as_str(v) {
        Some(s) => { return JsonVal::Str(s.to_owned()); },
        None => {},
    }
    match value_as_array(v) {
        Some(a) => {
            let ghost items = value_rebuilt(*v)->Arr_0@;
            let mut out: Vec<JsonVal> = Vec::new();
            let mut i: usize = 0;
            while i < a.len()
                invariant
                    0 <= i <= a@.len(),
                    value_depth(*v) < depth,
                    value_rebuilt(*v) is Arr,
                    items == value_rebuilt(*v)->Arr_0@,
                    items.len() == a@.len(),
                    forall|j: int| 0 <= j < a@.len()
                        ==> #[trigger] items[j] == value_rebuilt(a@[j]),
                    forall|j: int| 0 <= j < a@.len()
                        ==> value_depth(#[trigger] a@[j]) < value_depth(*v),
                    out@.len() == i,
                    forall|j: int| 0 <= j < i ==> jv_sim(#[trigger] out@[j], items[j]),
                decreases a@.len() - i,
            {
                let c = value_to_jsonval(&a[i], depth - 1);
                out.push(c);
                i = i + 1;
            }
            return JsonVal::Arr(out);
        },
        None => {},
    }
    match value_object_entries(v) {
        Some(entries) => {
            let ghost pairs = value_rebuilt(*v)->Obj_0@;
            let mut out: Vec<(String, JsonVal)> = Vec::new();
            let mut i: usize = 0;
            while i < entries.len()
                invariant
                    0 <= i <= entries@.len(),
                    value_depth(*v) < depth,
                    value_rebuilt(*v) is Obj,
                    pairs == value_rebuilt(*v)->Obj_0@,
                    pairs.len() == entries@.len(),
                    forall|j: int| 0 <= j < entries@.len()
                        ==> (#[trigger] pairs[j]).0@ == entries@[j].0@
                            && pairs[j].1 == value_rebuilt(*entries@[j].1),
                    forall|j: int| 0 <= j < entries@.len()
                        ==> value_depth(*(#[trigger] entries@[j]).1) < value_depth(*v),
                    out@.len() == i,
                    forall|j: int| 0 <= j < i ==> (#[trigger] out@[j]).0@ == pairs[j].0@
                        && jv_sim(out@[j].1, pairs[j].1),
                decreases entries@.len() - i,
            {
                let pair = &entries[i];
                let c = value_to_jsonval(pair.1, depth - 1);
                out.push((pair.0.clone(), c));
                i = i + 1;
            }
            return JsonVal::Obj(out);
        },
        None => {},
    }
    proof {
        assert(value_rebuilt(*v) is Null);
    }
    JsonVal::Null
}

/// Decode JSON text into the plain value model: succeeds exactly when
/// the text denotes a document, and then returns that document.
pub fn parse_json_text(s: &str) -> (r: Result<JsonVal, ParseError>)
    ensures
        r is Ok <==> json_doc(s@) is Some,
        r is Ok ==> jv_sim(r.unwrap(), json_doc(s@).unwrap()),
        r is Err ==> r.unwrap_err() is Syntax,
{
    let v = match decode_value(s) {
        Ok(v) => v,
        Err(e) => { return Err(ParseError::Syntax(json_error_text(&e))); },
    };
    let j = value_to_jsonval(&v, 130);
    Ok(j)
}

/// Parse a station response from its JSON text: succeeds exactly when
/// the text denotes a well-formed station body, and then returns what
/// that body says.
pub fn parse_station_text(s: &str) -> (r: Result<WindguruStationData, ParseError>)
    ensures
        r is Ok <==> (match json_doc(s@) {
            Some(v) => station_body_ok(v),
            None => false,
        }),
        r is Ok ==> station_match(json_doc(s@).unwrap(), r.unwrap()),
        json_doc(s@) is None ==> r is Err && r.unwrap_err() is Syntax,
{
    match parse_json_text(s) {
        Ok(v) => {
            proof {
                lemma_sim_station(v, json_doc(s@).unwrap());
            }
            parse_station(&v)
        },
        Err(e) => Err(e),
    }
}

/// Parse a forecast response from its JSON text: succeeds exactly when
/// the text denotes a well-formed forecast body, and then returns what
/// that body says.
pub fn parse_forecasts_text(s: &str) -> (r: Result<WindguruForecasts, ParseError>)
    ensures
        r is Ok <==> (match json_doc(s@) {
            Some(v) => forecasts_ok(v),
            None => false,
        }),
        r is Ok ==> forecasts_match(json_doc(s@).unwrap(), r.unwrap()),
        json_doc(s@) is None ==> r is Err && r.unwrap_err() is Syntax,
{
    match parse_json_text(s) {
        Ok(v) => {
            proof {
                lemma_sim_forecasts(v, json_doc(s@).unwrap());
            }
            parse_forecasts(&v)
        },
        Err(e) => Err(e),
    }
}

/// Parse a metadata response from its JSON text: succeeds exactly when
/// the text denotes a well-formed metadata response, and then returns
/// what that response says.
pub fn parse_spot_response_text(s: &str) -> (r: Result<ForecastSpotResponse, ParseError>)
    ensures
        r is Ok <==> (match json_doc(s@) {
            Some(v) => spot_response_ok(v),
            None => false,
        }),
        r is Ok ==> spot_response_match(json_doc(s@).unwrap(), r.unwrap()),
        json_doc(s@) is None ==> r is Err && r.unwrap_err() is Syntax,
{
    match parse_json_text(s) {
        Ok(v) => {
            proof {
                lemma_sim_spot_response(v, json_doc(s@).unwrap());
            }
            parse_spot_response(&v)
        },
        Err(e) => Err(e),
    }
}

} // verus!

