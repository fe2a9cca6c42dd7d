use forecasts_ingester::errors::ParseError;
use forecasts_ingester::fetch::station_query_pairs;
use forecasts_ingester::json::JsonVal;
use forecasts_ingester::jsontext::parse_station_text;
use forecasts_ingester::station::parse_station;
use forecasts_ingester::station::WindguruStationFetchParams;
use forecasts_ingester::time::CivilDateTime;

fn create_test_proper_windguru_station_data() -> &'static str {
    r#"
{
  "datetime": [
    "2023-04-15 07:30:00",
    "2023-04-15 07:36:00"
  ],
  "wind_avg": [
    23.7,
    22.2
  ],
  "wind_max": [
    35.1,
    35.7
  ],
  "wind_min": [
    null,
    null
  ],
  "wind_direction": [
    155,
    160
  ],
  "temperature": [
    16.6,
    16.6
  ],
  "mslp": [
    1015,
    1015
  ],
  "rh": [
    84,
    84
  ],
  "gustiness": [
    null,
    null
  ],
  "sunrise": "06:46",
  "sunset": "19:50",
  "startstamp": 1681533012,
  "endstamp": 1681597812,
  "tzoffset": 10800
}
        "#
}

#[test]
fn deserialize_proper_windsurfing_data() {
    let json_data = create_test_proper_windguru_station_data();

    let result = parse_station_text(json_data);

    let _data = match result {
        Ok(data) => data,
        Err(err) => {
            panic!("err_for_key={} details={}", "station", format!("{:?}", err))
        }
    };
}

#[test]
fn station_sample_reads_every_column_by_index() {
    let data = parse_station_text(create_test_proper_windguru_station_data()).unwrap();
    assert_eq!(data.readings.tzoffset, 10800);
    assert_eq!(data.datetime_start_utc, 1681533012);
    assert_eq!(data.datetime_end_utc, 1681597812);
    let readings = &data.readings.readings;
    assert_eq!(readings.len(), 2);
    assert_eq!(readings[0].wind_avg, Some(23700));
    assert_eq!(readings[1].wind_avg, Some(22200));
    assert_eq!(readings[0].wind_max, Some(35100));
    assert_eq!(readings[0].wind_min, None);
    assert_eq!(readings[0].gustiness, None);
    assert_eq!(readings[0].wind_direction, Some(155));
    assert_eq!(readings[0].relative_humidity, Some(84));
    assert_eq!(readings[0].mean_sea_level_pressure, Some(1015000));
    assert_eq!(readings[0].temperature, Some(16600));
}

#[test]
fn local_time_converts_to_utc_with_the_offset_subtracted() {
    // tzoffset = 10800 s and local "2023-04-15 07:30:00" give
    // 2023-04-15 04:30:00Z, which is Unix second 1681533000.
    let data = parse_station_text(create_test_proper_windguru_station_data()).unwrap();
    let first = &data.readings.readings[0];
    assert_eq!(
        first.datetime_local,
        CivilDateTime { year: 2023, month: 4, day: 15, hour: 7, minute: 30, second: 0 }
    );
    assert_eq!(first.timestamp_utc, 1681533000);
    // second sample, six minutes later
    assert_eq!(data.readings.readings[1].timestamp_utc, 1681533000 + 360);
}

#[test]
fn offset_of_a_day_or_more_is_rejected() {
    let body = JsonVal::Obj(vec![
        ("datetime".to_string(), JsonVal::Arr(vec![])),
        ("tzoffset".to_string(), JsonVal::Int(86400)),
        ("startstamp".to_string(), JsonVal::Int(0)),
        ("endstamp".to_string(), JsonVal::Int(0)),
    ]);
    assert_eq!(parse_station(&body), Err(ParseError::InvalidField("tzoffset".to_string())));
}

#[test]
fn non_text_datetime_cell_is_rejected() {
    let body = JsonVal::Obj(vec![
        ("datetime".to_string(), JsonVal::Arr(vec![JsonVal::Int(7)])),
        ("tzoffset".to_string(), JsonVal::Int(0)),
        ("startstamp".to_string(), JsonVal::Int(0)),
        ("endstamp".to_string(), JsonVal::Int(0)),
        ("gustiness".to_string(), JsonVal::Arr(vec![])),
        ("temperature".to_string(), JsonVal::Arr(vec![])),
        ("wind_avg".to_string(), JsonVal::Arr(vec![])),
        ("wind_max".to_string(), JsonVal::Arr(vec![])),
        ("wind_min".to_string(), JsonVal::Arr(vec![])),
        ("wind_direction".to_string(), JsonVal::Arr(vec![])),
        ("rh".to_string(), JsonVal::Arr(vec![])),
        ("mslp".to_string(), JsonVal::Arr(vec![])),
    ]);
    assert_eq!(parse_station(&body), Err(ParseError::InvalidField("datetime".to_string())));
}

#[test]
fn garbage_text_is_a_syntax_error() {
    match parse_station_text("{ not json") {
        Err(ParseError::Syntax(_)) => {}
        other => panic!("expected a syntax error, got {:?}", other),
    }
}

#[test]
fn default_station_params_match_the_provider_conventions() {
    let p = WindguruStationFetchParams::default();
    assert_eq!(p.id_station, 0);
    assert_eq!(p.avg_minutes, 5);
    assert_eq!(p.method, "station_data");
    assert_eq!(p.graph_info, 1);
    assert_eq!(
        p.from,
        CivilDateTime { year: 1970, month: 1, day: 1, hour: 0, minute: 0, second: 0 }
    );
}

#[test]
fn station_query_pairs_are_bit_exact() {
    let p = WindguruStationFetchParams {
        id_station: 2764,
        from: CivilDateTime { year: 2023, month: 4, day: 15, hour: 0, minute: 0, second: 0 },
        to: CivilDateTime { year: 2023, month: 4, day: 15, hour: 23, minute: 59, second: 0 },
        avg_minutes: 5,
        method: "station_data".to_string(),
        graph_info: 1,
    };
    let pairs = station_query_pairs(&p);
    assert_eq!(pairs, vec![
        ("id_station".to_string(), "2764".to_string()),
        ("from".to_string(), "2023-04-15T00:00:00Z".to_string()),
        ("to".to_string(), "2023-04-15T23:59:00Z".to_string()),
        ("avg_minutes".to_string(), "5".to_string()),
        ("q".to_string(), "station_data".to_string()),
        ("graph_info".to_string(), "1".to_string()),
    ]);
}
