use forecasts_ingester::errors::DbErrorInfo;
use forecasts_ingester::errors::IngestError;
use forecasts_ingester::forecast::Fcst;
use forecasts_ingester::forecast::Spot;
use forecasts_ingester::forecast::WgModel;
use forecasts_ingester::forecast::WindguruForecasts;
use forecasts_ingester::ingest::forecast_insert_rows;
use forecasts_ingester::ingest::handle_db_outcome;
use forecasts_ingester::ingest::IngestMsg;
use forecasts_ingester::ingest::MemoryRepository;
use forecasts_ingester::ingest::station_insert_rows;
use forecasts_ingester::ingest::WindguruForecast;
use forecasts_ingester::jsontext::parse_station_text;

fn sample_row(forecast_for: i64) -> Fcst {
    Fcst {
        gust: Some(10500),
        flhgt: None,
        slp: Some(1015),
        relative_humidity: Some(84),
        tcdc: None,
        apcp: Some(500),
        apcp1: Some(500),
        wind_speed: Some(23700),
        wind_direction: Some(155),
        slhgt: None,
        precipitation: None,
        temperature: Some(16600),
        forecast_for,
        forecast_from: 1681518600,
        cloud_cover_high: None,
        cloud_cover_mid: Some(20),
        cloud_cover_low: None,
    }
}

fn sample_forecasts() -> WindguruForecasts {
    WindguruForecasts {
        id_spot: 232,
        wgmodel: WgModel {
            id_model: 3,
            model: "gfs".to_string(),
            model_name: "GFS 13 km".to_string(),
            initdate: 1681516800,
            hr_start: 0,
            hr_end: 240,
            hr_step: 3,
            wave: false,
            rundef: "2023041500x0x240".to_string(),
        },
        sunrise: 406,
        sunset: 1190,
        forecasts: vec![sample_row(1681516800), sample_row(1681520400)],
    }
}

fn sample_spot() -> Spot {
    Spot {
        id: 232,
        name: "Hel".to_string(),
        country: "Poland".to_string(),
        models: vec![3, 38],
        gmt_hour_offset: Some(2),
    }
}

#[test]
fn forecast_rows_bind_in_column_order() {
    let f = sample_forecasts();
    let rows = forecast_insert_rows(&f);
    assert_eq!(rows.len(), 2);
    assert_eq!(rows[0].id_spot, 232);
    assert_eq!(rows[0].id_model, 3);
    assert_eq!(rows[0].forecast_from, 1681518600);
    assert_eq!(rows[0].forecast_for, 1681516800);
    assert!(!rows[0].wave);
    assert_eq!(rows[0].gust, Some(10500));
    assert_eq!(rows[0].wind_speed, Some(23700));
    assert_eq!(rows[0].wind_direction, Some(155));
    assert_eq!(rows[0].temperature, Some(16600));
    assert_eq!(rows[0].relative_humidity, Some(84));
    assert_eq!(rows[0].precipitation, None);
    assert_eq!(rows[0].cloud_cover_mid, Some(20));
    assert_eq!(rows[1].forecast_for, 1681520400);
}

#[test]
fn station_rows_bind_with_their_utc_instant() {
    let text = r#"{
        "datetime": ["2023-04-15 07:30:00"],
        "wind_avg": [23.7], "wind_max": [35.1], "wind_min": [null],
        "wind_direction": [155], "temperature": [16.6], "mslp": [1015],
        "rh": [84], "gustiness": [null],
        "startstamp": 1681533012, "endstamp": 1681597812, "tzoffset": 10800
    }"#;
    let data = parse_station_text(text).unwrap();
    let rows = station_insert_rows(2764, &data);
    assert_eq!(rows.len(), 1);
    assert_eq!(rows[0].id_station, 2764);
    assert_eq!(rows[0].timestamp_utc, 1681533000);
    assert_eq!(rows[0].tzoffset, 10800);
    assert_eq!(rows[0].wind_avg, Some(23700));
    assert_eq!(rows[0].wind_max, Some(35100));
    assert_eq!(rows[0].wind_direction, Some(155));
    assert_eq!(rows[0].temperature, Some(16600));
}

#[test]
fn ingesting_the_same_rows_twice_is_a_silent_no_op() {
    let mut repo = MemoryRepository::new();
    let msg = IngestMsg::WindguruForecast(WindguruForecast {
        forecast: sample_forecasts(),
        spot: sample_spot(),
    });
    repo.ingest(&msg).expect("first ingest must succeed");
    let after_first = repo.clone();
    repo.ingest(&msg).expect("second ingest of the same rows must succeed");
    // nothing changed, and each (spot, model, forecast_for) has exactly one row
    assert_eq!(repo, after_first);
    assert_eq!(repo.forecast_keys.len(), 2);
    assert_eq!(repo.count_forecast_rows((232, 3, 1681516800)), 1);
    assert_eq!(repo.count_forecast_rows((232, 3, 1681520400)), 1);
    assert_eq!(repo.count_forecast_rows((232, 3, 7)), 0);
    assert_eq!(repo.model_ids, vec![3]);
}

#[test]
fn ingesting_a_spot_twice_keeps_one_reference_row() {
    let mut repo = MemoryRepository::new();
    repo.ingest(&IngestMsg::WindguruSpot(sample_spot())).unwrap();
    repo.ingest(&IngestMsg::WindguruSpot(sample_spot())).unwrap();
    assert_eq!(repo.spot_ids, vec![232]);
}

#[test]
fn uniqueness_violation_is_success() {
    let outcome: Result<u64, DbErrorInfo> = Err(DbErrorInfo {
        code: Some("23505".to_string()),
        message: "duplicate key value violates unique constraint".to_string(),
    });
    assert_eq!(handle_db_outcome(outcome), Ok(()));
    assert_eq!(handle_db_outcome(Ok(14)), Ok(()));
}

#[test]
fn other_database_errors_surface_structured() {
    let info = DbErrorInfo {
        code: Some("23503".to_string()),
        message: "foreign key violation".to_string(),
    };
    assert_eq!(
        handle_db_outcome(Err(info.clone())),
        Err(IngestError::Database(info))
    );
}

#[test]
fn failures_without_a_code_surface_as_their_message() {
    let info = DbErrorInfo { code: None, message: "connection reset".to_string() };
    assert_eq!(
        handle_db_outcome(Err(info)),
        Err(IngestError::Other("connection reset".to_string()))
    );
}

#[test]
fn ingest_msg_labels_name_their_variant() {
    let spot_msg = IngestMsg::WindguruSpot(sample_spot());
    assert_eq!(spot_msg.label(), "WindguruSpotMsg");
    let forecast_msg = IngestMsg::WindguruForecast(WindguruForecast {
        forecast: sample_forecasts(),
        spot: sample_spot(),
    });
    assert_eq!(forecast_msg.label(), "WindguruForecastIngestMsg");
}
