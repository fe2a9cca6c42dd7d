use forecasts_ingester::errors::FetchError;
use forecasts_ingester::errors::ParseError;
use forecasts_ingester::fetch::plan_forecast_request;
use forecasts_ingester::fetch::query_params_for_model;
use forecasts_ingester::forecast::parse_fcst_rows;
use forecasts_ingester::forecast::parse_forecasts;
use forecasts_ingester::forecast::parse_spot_entry;
use forecasts_ingester::forecast::parse_spot_response;
use forecasts_ingester::forecast::Spot;
use forecasts_ingester::json::JsonVal;

fn s(text: &str) -> JsonVal {
    JsonVal::Str(text.to_string())
}

fn col(cells: Vec<JsonVal>) -> JsonVal {
    JsonVal::Arr(cells)
}

fn nulls(n: usize) -> JsonVal {
    JsonVal::Arr((0..n).map(|_| JsonVal::Null).collect())
}

/// A well-formed columnar body with three rows: initstamp T, hour
/// offsets 0, 1 and 3.
fn sample_fcst_body() -> JsonVal {
    JsonVal::Obj(vec![
        ("initstamp".to_string(), JsonVal::Int(1681516800)),
        ("update_last".to_string(), s("2023-04-15 00:30:00")),
        ("hours".to_string(), col(vec![JsonVal::Int(0), JsonVal::Int(1), JsonVal::Int(3)])),
        ("GUST".to_string(), col(vec![JsonVal::Dec(10500), JsonVal::Null, JsonVal::Int(12)])),
        ("FLHGT".to_string(), nulls(3)),
        ("SLP".to_string(), col(vec![JsonVal::Int(1015), JsonVal::Int(1014), JsonVal::Null])),
        ("RH".to_string(), col(vec![JsonVal::Int(84), JsonVal::Null, JsonVal::Int(80)])),
        ("TCDC".to_string(), nulls(3)),
        ("APCP1".to_string(), col(vec![JsonVal::Dec(500), JsonVal::Null, JsonVal::Null])),
        ("HCDC".to_string(), nulls(3)),
        ("MCDC".to_string(), nulls(3)),
        ("LCDC".to_string(), nulls(3)),
        ("WINDSPD".to_string(), col(vec![JsonVal::Dec(23700), JsonVal::Dec(22200), JsonVal::Null])),
        ("WINDDIR".to_string(), col(vec![JsonVal::Int(155), JsonVal::Null, JsonVal::Int(160)])),
        ("SLHGT".to_string(), nulls(3)),
        ("PCPT".to_string(), nulls(3)),
        ("TMPE".to_string(), col(vec![JsonVal::Dec(16600), JsonVal::Null, JsonVal::Dec(-500)])),
    ])
}

#[test]
fn test_deserialization() {}

#[test]
fn rows_derive_forecast_for_from_initstamp_plus_hours() {
    let body = sample_fcst_body();
    let rows = parse_fcst_rows(&body).expect("well-formed body must parse");
    assert_eq!(rows.len(), 3);
    // forecast_for = initstamp + hours[i] hours
    assert_eq!(rows[0].forecast_for, 1681516800);
    assert_eq!(rows[1].forecast_for, 1681516800 + 3600);
    assert_eq!(rows[2].forecast_for, 1681516800 + 3 * 3600);
    // forecast_from = the decoded update_last base, shared by all rows
    for row in &rows {
        assert_eq!(row.forecast_from, 1681518600);
    }
    // cells are read by index; null cells are empty, not zero
    assert_eq!(rows[0].gust, Some(10500));
    assert_eq!(rows[1].gust, None);
    assert_eq!(rows[2].gust, Some(12000));
    assert_eq!(rows[0].wind_direction, Some(155));
    assert_eq!(rows[1].wind_direction, None);
    assert_eq!(rows[0].temperature, Some(16600));
    assert_eq!(rows[2].temperature, Some(-500));
    assert_eq!(rows[0].slp, Some(1015));
    assert_eq!(rows[0].apcp, Some(500));
    assert_eq!(rows[0].apcp1, Some(500));
}

#[test]
fn missing_initstamp_is_a_missing_field() {
    let body = JsonVal::Obj(vec![
        ("GUST".to_string(), nulls(0)),
        ("update_last".to_string(), s("2023-04-15 00:30:00")),
    ]);
    assert_eq!(parse_fcst_rows(&body), Err(ParseError::MissingField("initstamp".to_string())));
}

#[test]
fn bad_update_last_is_an_invalid_field() {
    let body = JsonVal::Obj(vec![
        ("GUST".to_string(), nulls(0)),
        ("initstamp".to_string(), JsonVal::Int(0)),
        ("update_last".to_string(), s("2023-13-45 99:99:99")),
    ]);
    assert_eq!(parse_fcst_rows(&body), Err(ParseError::InvalidField("update_last".to_string())));
}

#[test]
fn out_of_range_integer_cell_is_a_narrowing_failure() {
    let mut entries = match sample_fcst_body() {
        JsonVal::Obj(entries) => entries,
        _ => unreachable!(),
    };
    for e in entries.iter_mut() {
        if e.0 == "WINDDIR" {
            e.1 = col(vec![JsonVal::Int(3_000_000_000), JsonVal::Null, JsonVal::Null]);
        }
    }
    let body = JsonVal::Obj(entries);
    assert_eq!(parse_fcst_rows(&body), Err(ParseError::InvalidField("WINDDIR".to_string())));
}

fn sample_wgmodel() -> JsonVal {
    JsonVal::Obj(vec![
        ("id_model".to_string(), JsonVal::Int(3)),
        ("model".to_string(), s("gfs")),
        ("model_name".to_string(), s("GFS 13 km")),
        ("initdate".to_string(), s("2023-04-15 00:00:00")),
        ("hr_start".to_string(), JsonVal::Int(0)),
        ("hr_end".to_string(), JsonVal::Int(240)),
        ("hr_step".to_string(), JsonVal::Int(3)),
        ("wave".to_string(), JsonVal::Bool(false)),
        ("rundef".to_string(), s("2023041500x0x240x0x240")),
    ])
}

#[test]
fn full_forecast_body_parses() {
    let body = JsonVal::Obj(vec![
        ("id_spot".to_string(), JsonVal::Int(232)),
        ("wgmodel".to_string(), sample_wgmodel()),
        ("sunrise".to_string(), s("06:46")),
        ("sunset".to_string(), s("19:50")),
        ("fcst".to_string(), sample_fcst_body()),
    ]);
    let f = parse_forecasts(&body).expect("well-formed forecast must parse");
    assert_eq!(f.id_spot, 232);
    assert_eq!(f.wgmodel.id_model, 3);
    assert_eq!(f.wgmodel.model, "gfs");
    assert_eq!(f.wgmodel.model_name, "GFS 13 km");
    assert_eq!(f.wgmodel.initdate, 1681516800);
    assert_eq!(f.wgmodel.hr_step, 3);
    assert!(!f.wgmodel.wave);
    assert_eq!(f.sunrise, 6 * 60 + 46);
    assert_eq!(f.sunset, 19 * 60 + 50);
    assert_eq!(f.forecasts.len(), 3);
}

fn spot_entry(id_text: &str, name: &str) -> JsonVal {
    JsonVal::Obj(vec![
        ("id_spot".to_string(), s(id_text)),
        ("spotname".to_string(), s(name)),
        ("country".to_string(), s("Poland")),
        ("models".to_string(), col(vec![JsonVal::Int(3), JsonVal::Int(38)])),
        ("gmt_hour_offset".to_string(), JsonVal::Int(2)),
    ])
}

#[test]
fn spot_entry_parses_its_string_id() {
    let spot = parse_spot_entry(&spot_entry("232", "Hel")).expect("entry must parse");
    assert_eq!(spot.id, 232);
    assert_eq!(spot.name, "Hel");
    assert_eq!(spot.country, "Poland");
    assert_eq!(spot.models, vec![3, 38]);
    assert_eq!(spot.gmt_hour_offset, Some(2));
}

#[test]
fn zero_spots_are_rejected_as_ambiguous() {
    assert_eq!(
        Spot::from_entries(vec![]),
        Err(ParseError::AmbiguousSpot(0))
    );
}

#[test]
fn two_spots_are_rejected_as_ambiguous() {
    let a = parse_spot_entry(&spot_entry("1", "A")).unwrap();
    let b = parse_spot_entry(&spot_entry("2", "B")).unwrap();
    assert_eq!(
        Spot::from_entries(vec![a, b]),
        Err(ParseError::AmbiguousSpot(2))
    );
}

#[test]
fn one_spot_is_picked() {
    let a = parse_spot_entry(&spot_entry("232", "Hel")).unwrap();
    let picked = Spot::from_entries(vec![a.clone()]).expect("one entry must be picked");
    assert_eq!(picked, a);
}

fn metadata_tab(id_spot: i64, id_model: i64, param_model: i64) -> JsonVal {
    JsonVal::Obj(vec![
        ("id_spot".to_string(), JsonVal::Int(id_spot)),
        ("id_model".to_string(), JsonVal::Int(id_model)),
        ("id_model_arr".to_string(), col(vec![JsonVal::Obj(vec![
            ("id_model".to_string(), JsonVal::Int(param_model)),
            ("initstr".to_string(), s("2023041500")),
            ("rundef".to_string(), s("2023041500x0x240")),
            ("period".to_string(), JsonVal::Int(3)),
            ("cachefix".to_string(), s("abc123")),
        ])])),
        ("options".to_string(), JsonVal::Obj(vec![])),
    ])
}

#[test]
fn metadata_resolves_query_params_for_the_requested_model() {
    let response = JsonVal::Obj(vec![
        ("tabs".to_string(), col(vec![
            metadata_tab(232, 38, 38),
            metadata_tab(232, 3, 3),
        ])),
        ("spots".to_string(), JsonVal::Obj(vec![
            ("232".to_string(), spot_entry("232", "Hel")),
        ])),
    ]);
    let resp = parse_spot_response(&response).expect("metadata must parse");
    assert_eq!(resp.models.len(), 2);
    assert_eq!(resp.spots.len(), 1);

    let q = query_params_for_model(&resp.models, 3).expect("model 3 is described");
    assert_eq!(q.id_model, 3);
    assert_eq!(q.forecast_spot.id_spot, 232);
    assert_eq!(q.rundef, "2023041500x0x240");
    assert_eq!(q.initstr, "2023041500");
    assert_eq!(q.cachefix, "abc123");
    assert_eq!(q.wgcacheable, 21600);

    assert!(query_params_for_model(&resp.models, 99).is_none());
}

#[test]
fn planning_rejects_an_ambiguous_spot_table() {
    let response = JsonVal::Obj(vec![
        ("tabs".to_string(), col(vec![metadata_tab(232, 3, 3)])),
        ("spots".to_string(), JsonVal::Obj(vec![
            ("232".to_string(), spot_entry("232", "Hel")),
            ("543".to_string(), spot_entry("543", "Puck")),
        ])),
    ]);
    let resp = parse_spot_response(&response).unwrap();
    assert_eq!(
        plan_forecast_request(resp, 3),
        Err(FetchError::Parse(ParseError::AmbiguousSpot(2)))
    );
}

#[test]
fn planning_yields_the_spot_and_its_model_parameters() {
    let response = JsonVal::Obj(vec![
        ("tabs".to_string(), col(vec![metadata_tab(232, 3, 3)])),
        ("spots".to_string(), JsonVal::Obj(vec![
            ("232".to_string(), spot_entry("232", "Hel")),
        ])),
    ]);
    let resp = parse_spot_response(&response).unwrap();
    let (spot, q) = plan_forecast_request(resp, 3).expect("plan must resolve");
    assert_eq!(spot.id, 232);
    assert_eq!(q.id_model, 3);
    assert_eq!(q.cachefix, "abc123");
}

#[test]
fn planning_an_undescribed_model_fails() {
    let response = JsonVal::Obj(vec![
        ("tabs".to_string(), col(vec![metadata_tab(232, 3, 3)])),
        ("spots".to_string(), JsonVal::Obj(vec![
            ("232".to_string(), spot_entry("232", "Hel")),
        ])),
    ]);
    let resp = parse_spot_response(&response).unwrap();
    match plan_forecast_request(resp, 99) {
        Err(FetchError::Other(_)) => {}
        other => panic!("expected a plain failure, got {:?}", other),
    }
}

#[test]
fn tab_without_matching_params_is_skipped() {
    // the descriptor list names a different model than the tab itself
    let tabs = parse_spot_response(&JsonVal::Obj(vec![
        ("tabs".to_string(), col(vec![metadata_tab(232, 3, 38)])),
        ("spots".to_string(), JsonVal::Obj(vec![
            ("232".to_string(), spot_entry("232", "Hel")),
        ])),
    ])).unwrap().models;
    assert!(query_params_for_model(&tabs, 3).is_none());
}
