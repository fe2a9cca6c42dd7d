use forecasts_ingester::config::ConfigCache;
use forecasts_ingester::config::DataStorage;
use forecasts_ingester::config::init_config;
use forecasts_ingester::config::PostgresqlConfig;
use forecasts_ingester::config::Settings;
use forecasts_ingester::config::WindguruConfig;
use forecasts_ingester::errors::FetchError;
use forecasts_ingester::fetch::api_url;
use forecasts_ingester::fetch::check_status;
use forecasts_ingester::fetch::cookies_header;
use forecasts_ingester::fetch::ForecastQueryParams;
use forecasts_ingester::fetch::ForecastSpotQueryParams;
use forecasts_ingester::fetch::primer_url;
use forecasts_ingester::fetch::WindguruMethod;
use forecasts_ingester::forecast::Spot;
use forecasts_ingester::ingest::IngestMsg;
use forecasts_ingester::ingest::MemoryRepository;
use forecasts_ingester::orchestrate::build_fetch_msgs;
use forecasts_ingester::orchestrate::FetchMsg;
use forecasts_ingester::orchestrate::get_yesterday_date_bounds;
use forecasts_ingester::orchestrate::RunSummary;
use forecasts_ingester::orchestrate::StationTarget;
use forecasts_ingester::orchestrate::target_of;
use forecasts_ingester::orchestrate::TargetRef;
use forecasts_ingester::time::CivilDateTime;

fn day(hour: u32, minute: u32) -> CivilDateTime {
    CivilDateTime { year: 2023, month: 4, day: 15, hour, minute, second: 0 }
}

fn spot_msg(id: i32) -> IngestMsg {
    IngestMsg::WindguruSpot(Spot {
        id,
        name: "spot".to_string(),
        country: "PL".to_string(),
        models: vec![3],
        gmt_hour_offset: None,
    })
}

#[test]
fn work_list_holds_one_request_per_target() {
    let spots = vec![232, 543];
    let stations = vec![StationTarget {
        id_station: 2764,
        from: day(0, 0),
        to: day(23, 59),
        avg_minutes: 5,
    }];
    let msgs = build_fetch_msgs(&spots, &stations);
    assert_eq!(msgs.len(), 3);
    match &msgs[0] {
        FetchMsg::WindguruForecast(m) => assert_eq!(m.spot, 232),
        other => panic!("expected a forecast request, got {:?}", other),
    }
    match &msgs[1] {
        FetchMsg::WindguruForecast(m) => assert_eq!(m.spot, 543),
        other => panic!("expected a forecast request, got {:?}", other),
    }
    match &msgs[2] {
        FetchMsg::WindguruStation(p) => {
            assert_eq!(p.id_station, 2764);
            assert_eq!(p.from, day(0, 0));
            assert_eq!(p.to, day(23, 59));
            assert_eq!(p.avg_minutes, 5);
            assert_eq!(p.method, "station_data");
            assert_eq!(p.graph_info, 1);
        }
        other => panic!("expected a station request, got {:?}", other),
    }
    assert_eq!(target_of(&msgs[0]), TargetRef::Spot(232));
    assert_eq!(target_of(&msgs[2]), TargetRef::Station(2764));
    assert_eq!(msgs[0].label(), "WindguruForecastFetchMsg");
    assert_eq!(msgs[2].label(), "WindguruStationFetchMsg");
}

#[test]
fn one_failed_fetch_marks_one_target_and_spares_the_rest() {
    // three configured spots; the middle one's fetch fails
    let mut summary = RunSummary::new();
    let mut repo = MemoryRepository::new();
    let outcomes: Vec<(TargetRef, Result<IngestMsg, FetchError>)> = vec![
        (TargetRef::Spot(1), Ok(spot_msg(1))),
        (TargetRef::Spot(2), Err(FetchError::Parse(
            forecasts_ingester::errors::ParseError::Syntax("broken payload".to_string())))),
        (TargetRef::Spot(3), Ok(spot_msg(3))),
    ];
    for (target, outcome) in outcomes {
        if let Some(msg) = summary.on_fetch_settled(target, outcome) {
            let ingested = repo.ingest(&msg);
            summary.on_ingest_settled(target, ingested);
        }
    }
    // exactly one fetch failure, with its target recorded
    assert_eq!(summary.fetch_err, 1);
    assert_eq!(summary.fetch_ok, 2);
    assert_eq!(summary.fetch_failures.len(), 1);
    assert_eq!(summary.fetch_failures[0].0, TargetRef::Spot(2));
    // every other target's data was ingested
    assert_eq!(summary.ingest_ok, 2);
    assert_eq!(summary.ingest_err, 0);
    assert_eq!(repo.spot_ids, vec![1, 3]);
    assert!(!summary.all_failed());
}

#[test]
fn a_fully_failed_run_is_distinguishable() {
    let mut summary = RunSummary::new();
    let next = summary.on_fetch_settled(
        TargetRef::Spot(1),
        Err(FetchError::MissingCookies),
    );
    assert!(next.is_none());
    assert!(summary.all_failed());
}

#[test]
fn the_day_window_spans_midnight_to_one_before_next_midnight() {
    let now = day(13, 37);
    let (start, end) = get_yesterday_date_bounds(&now);
    assert_eq!(start, day(0, 0));
    assert_eq!(end, day(23, 59));
}

#[test]
fn urls_and_cookie_headers_are_assembled_exactly() {
    assert_eq!(api_url("https://www.windguru.cz"), "https://www.windguru.cz/int/iapi.php");
    assert_eq!(primer_url("https://www.windguru.cz", 232), "https://www.windguru.cz/232");
    let cookies = vec![
        ("sid".to_string(), "abc".to_string()),
        ("lang".to_string(), "en".to_string()),
    ];
    assert_eq!(cookies_header(&cookies), Ok("sid=abc; lang=en".to_string()));
    assert_eq!(cookies_header(&vec![]), Err(FetchError::MissingCookies));
}

#[test]
fn forecast_query_pairs_are_bit_exact() {
    let q = ForecastQueryParams {
        rundef: "2023041500x0x240".to_string(),
        initstr: "2023041500".to_string(),
        forecast_spot: ForecastSpotQueryParams {
            method: WindguruMethod::Forecast,
            id_spot: 232,
        },
        id_model: 3,
        wgcacheable: 21600,
        cachefix: "abc123".to_string(),
    };
    assert_eq!(q.to_pairs(), vec![
        ("rundef".to_string(), "2023041500x0x240".to_string()),
        ("initstr".to_string(), "2023041500".to_string()),
        ("q".to_string(), "forecast".to_string()),
        ("id_spot".to_string(), "232".to_string()),
        ("id_model".to_string(), "3".to_string()),
        ("WGCACHEABLE".to_string(), "21600".to_string()),
        ("cachefix".to_string(), "abc123".to_string()),
    ]);
    let meta = ForecastSpotQueryParams {
        method: WindguruMethod::ForecastSpot,
        id_spot: 232,
    };
    assert_eq!(meta.to_pairs(), vec![
        ("q".to_string(), "forecast_spot".to_string()),
        ("id_spot".to_string(), "232".to_string()),
    ]);
}

#[test]
fn exactly_the_client_and_server_statuses_are_errors() {
    assert_eq!(check_status(200), Ok(()));
    assert_eq!(check_status(302), Ok(()));
    assert_eq!(check_status(399), Ok(()));
    match check_status(404) {
        Err(FetchError::RequestFailed(m)) => assert_eq!(m, "error status 404"),
        other => panic!("expected a request failure, got {:?}", other),
    }
    match check_status(599) {
        Err(FetchError::RequestFailed(m)) => assert_eq!(m, "error status 599"),
        other => panic!("expected a request failure, got {:?}", other),
    }
    assert_eq!(check_status(600), Ok(()));
}

#[test]
fn config_lookup_lets_the_last_source_win() {
    let mut cache = ConfigCache::default();
    cache.set("windguru.url".to_string(), "https://file".to_string());
    cache.set("storage.type".to_string(), "postgresql".to_string());
    cache.set("windguru.url".to_string(), "https://env".to_string());
    assert_eq!(cache.get("windguru.url"), Some(&"https://env".to_string()));
    assert_eq!(cache.get("storage.type"), Some(&"postgresql".to_string()));
    assert_eq!(cache.get("missing"), None);
}

#[test]
fn settings_assemble_from_their_parts() {
    let settings: Settings = init_config(
        WindguruConfig {
            url: "https://www.windguru.cz".to_string(),
            spots: vec![232],
            models: vec![3],
        },
        DataStorage::Postgresql(PostgresqlConfig {
            connection_url: "postgres://localhost/forecasts".to_string(),
        }),
    );
    assert_eq!(settings.windguru.spots, vec![232]);
    match settings.storage {
        DataStorage::Postgresql(c) => assert_eq!(c.connection_url, "postgres://localhost/forecasts"),
        DataStorage::S3(_) => panic!("expected the relational backend"),
    }
}
