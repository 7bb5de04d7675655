use chrono::{Datelike, TimeZone, Timelike};
use weather::datetime::{format_datetime, local_datetime, parse_datetime, LocalDateTime};
use weather::json::{parse_response, Json};
use weather::report::{current_report, forecast_report};
use weather::weather::{
    current_weather_url, forecast_points, forecast_readings, forecast_url, geocoding_url,
    get_city_geo_location, get_current_weather, get_timestamps_weather_forecasting, read_conditions,
    show_number, Coordinates, CurrentConditions, ForecastReading, FormattedResult, WeatherClient,
    WeatherError,
};

const CURRENT: &str = r#"{"main":{"temp":21.5,"temp_max":23.0,"temp_min":19.0},"weather":[{"description":"clear sky"}]}"#;

fn forecast_body() -> String {
    let mut entries = Vec::new();
    let stamps = [1700000000i64, 1700010800, 1700021600];
    for (i, dt) in stamps.iter().enumerate() {
        entries.push(format!(
            r#"{{"dt":{},"main":{{"temp":{}.5,"temp_max":{}.0,"temp_min":10}},"weather":[{{"description":"rain {}"}}]}}"#,
            dt,
            20 + i,
            25 + i,
            i
        ));
    }
    format!(r#"{{"cnt":3,"list":[{}]}}"#, entries.join(","))
}

#[test]
fn current_weather_example_body() {
    let doc = parse_response(CURRENT);
    let c = get_current_weather(&doc).unwrap();
    assert_eq!(c.current_temperature, "21.5");
    assert_eq!(c.max_temperature, "23");
    assert_eq!(c.min_temperature, "19");
    assert_eq!(c.weather_description, "clear sky");
}

#[test]
fn current_weather_missing_field() {
    let doc = parse_response(r#"{"main":{"temp":21.5,"temp_max":23.0},"weather":[{"description":"x"}]}"#);
    assert!(matches!(get_current_weather(&doc), Err(WeatherError::MissingField)));
    let doc = parse_response(r#"{"main":{"temp":21.5,"temp_max":23.0,"temp_min":1},"weather":[]}"#);
    assert!(matches!(get_current_weather(&doc), Err(WeatherError::MissingField)));
    let doc = parse_response(r#"{"main":{"temp":"warm","temp_max":23.0,"temp_min":1},"weather":[{"description":"x"}]}"#);
    assert!(matches!(get_current_weather(&doc), Err(WeatherError::MissingField)));
}

#[test]
fn malformed_body_reads_as_null() {
    let doc = parse_response("not json at all");
    assert!(matches!(doc, Json::Null));
    assert!(matches!(get_current_weather(&doc), Err(WeatherError::MissingField)));
    assert!(matches!(parse_response(""), Json::Null));
}

#[test]
fn geo_location_takes_first_place_exactly() {
    let doc = parse_response(
        r#"[{"name":"Sydney","lat":-33.8698439,"lon":151.2082848},{"name":"Sydney","lat":46.1351,"lon":-60.1831}]"#,
    );
    let c = get_city_geo_location(&doc).unwrap();
    assert_eq!(c.latitude, "-33.8698439");
    assert_eq!(c.longitude, "151.2082848");
}

#[test]
fn geo_location_empty_array_is_an_error() {
    let doc = parse_response("[]");
    assert!(matches!(get_city_geo_location(&doc), Err(WeatherError::NoLocation)));
    let doc = parse_response("{}");
    assert!(matches!(get_city_geo_location(&doc), Err(WeatherError::NoLocation)));
}

#[test]
fn geo_location_without_coordinates() {
    let doc = parse_response(r#"[{"name":"Nowhere","lat":1.5}]"#);
    assert!(matches!(get_city_geo_location(&doc), Err(WeatherError::MissingField)));
}

#[test]
fn forecast_keeps_count_and_order() {
    let doc = parse_response(&forecast_body());
    let points = get_timestamps_weather_forecasting(&doc).unwrap();
    assert_eq!(points.len(), 3);
    let stamps = [1700000000i64, 1700010800, 1700021600];
    for (i, p) in points.iter().enumerate() {
        assert_eq!(p.current_temperature, format!("{}.5", 20 + i));
        assert_eq!(p.max_temperature, format!("{}", 25 + i));
        assert_eq!(p.min_temperature, "10");
        assert_eq!(p.weather_description, format!("rain {}", i));
        let t = chrono::Local.timestamp_opt(stamps[i], 0).unwrap();
        assert_eq!(p.datetime.year, t.year());
        assert_eq!(p.datetime.month, t.month());
        assert_eq!(p.datetime.day, t.day());
        assert_eq!(p.datetime.hour, t.hour());
        assert_eq!(p.datetime.minute, t.minute());
        assert_eq!(p.datetime.second, t.second());
        assert_eq!(p.utc_offset, t_offset(stamps[i]));
    }
}

#[test]
fn forecast_without_list_or_dt() {
    let doc = parse_response(r#"{"cnt":0}"#);
    assert!(matches!(get_timestamps_weather_forecasting(&doc), Err(WeatherError::MissingField)));
    let doc = parse_response(
        r#"{"list":[{"main":{"temp":1,"temp_max":2,"temp_min":0},"weather":[{"description":"fog"}]}]}"#,
    );
    assert!(matches!(get_timestamps_weather_forecasting(&doc), Err(WeatherError::MissingField)));
    let doc = parse_response(r#"{"list":[]}"#);
    assert_eq!(get_timestamps_weather_forecasting(&doc).unwrap().len(), 0);
}

#[test]
fn forecast_readings_in_order() {
    let doc = parse_response(&forecast_body());
    let r = forecast_readings(&doc).unwrap();
    assert_eq!(r.len(), 3);
    assert_eq!(r[0].timestamp, 1700000000);
    assert_eq!(r[2].timestamp, 1700021600);
    assert_eq!(r[1].max_temperature, "26");
}

fn reading(t: i64) -> ForecastReading {
    ForecastReading {
        timestamp: t,
        current_temperature: "1".to_string(),
        max_temperature: "2".to_string(),
        min_temperature: "0".to_string(),
        weather_description: "snow".to_string(),
    }
}

fn time(year: i32, month: u32, day: u32, hour: u32, minute: u32, second: u32) -> LocalDateTime {
    LocalDateTime { year, month, day, hour, minute, second }
}

#[test]
fn forecast_points_join_times() {
    let readings = vec![reading(0), reading(60)];
    let times = vec![Some((time(2024, 2, 29, 23, 59, 7), 3600)), Some((time(2024, 3, 1, 0, 0, 0), -7200))];
    let p = forecast_points(&readings, &times).unwrap();
    assert_eq!(p[0].datetime, time(2024, 2, 29, 23, 59, 7));
    assert_eq!(p[0].utc_offset, 3600);
    assert_eq!(p[1].datetime, time(2024, 3, 1, 0, 0, 0));
    assert_eq!(p[1].utc_offset, -7200);
    assert_eq!(p[1].weather_description, "snow");
}

#[test]
fn forecast_points_reject_bad_times() {
    let readings = vec![reading(0)];
    assert!(matches!(forecast_points(&readings, &vec![None]), Err(WeatherError::TimestampOutOfRange)));
    let far = vec![Some((time(10000, 1, 1, 0, 0, 0), 0))];
    assert!(matches!(forecast_points(&readings, &far), Err(WeatherError::TimestampOutOfRange)));
    let bad = vec![Some((time(2023, 2, 29, 0, 0, 0), 0))];
    assert!(matches!(forecast_points(&readings, &bad), Err(WeatherError::TimestampOutOfRange)));
}

#[test]
fn local_datetime_matches_chrono() {
    let (d, offset) = local_datetime(1700000000).unwrap();
    assert_eq!(offset, t_offset(1700000000));
    let wall = chrono::NaiveDate::from_ymd_opt(d.year, d.month, d.day)
        .unwrap()
        .and_hms_opt(d.hour, d.minute, d.second)
        .unwrap()
        .and_utc()
        .timestamp();
    assert_eq!(wall - offset as i64, 1700000000);
    let t = chrono::Local.timestamp_opt(1700000000, 0).unwrap();
    assert_eq!(d.year, t.year());
    assert_eq!(d.hour, t.hour());
    assert_eq!(d.minute, t.minute());
    assert!(local_datetime(i64::MAX).is_none());
}

#[test]
fn datetime_text_round_trip() {
    let d = time(2023, 11, 14, 22, 13, 20);
    let s = format_datetime(&d);
    assert_eq!(s, "2023-11-14 22:13");
    assert_eq!(parse_datetime(&s), Some(time(2023, 11, 14, 22, 13, 0)));
    let early = time(7, 1, 2, 3, 4, 5);
    assert_eq!(format_datetime(&early), "0007-01-02 03:04");
    assert_eq!(parse_datetime(&format_datetime(&early)), Some(time(7, 1, 2, 3, 4, 0)));
}

#[test]
fn parse_datetime_rejects() {
    assert_eq!(parse_datetime("2023-02-29 10:00"), None);
    assert_eq!(parse_datetime("2024-02-29 10:00"), Some(time(2024, 2, 29, 10, 0, 0)));
    assert_eq!(parse_datetime("2023-13-01 10:00"), None);
    assert_eq!(parse_datetime("2023-12-01 24:00"), None);
    assert_eq!(parse_datetime("2023-12-01T10:00"), None);
    assert_eq!(parse_datetime("2023-12-01 10:0"), None);
    assert_eq!(parse_datetime(""), None);
}

#[test]
fn shown_numbers() {
    assert_eq!(show_number("23.0"), "23");
    assert_eq!(show_number("21.5"), "21.5");
    assert_eq!(show_number("-0.0"), "-0");
    assert_eq!(show_number("10"), "10");
    assert_eq!(show_number("0"), "0");
}

#[test]
fn request_addresses() {
    assert_eq!(
        geocoding_url("Sydney"),
        "http://api.openweathermap.org/geo/1.0/direct?q=Sydney&limit=5"
    );
    let c = Coordinates { latitude: "-33.8698439".to_string(), longitude: "151.2082848".to_string() };
    assert_eq!(
        current_weather_url(&c),
        "https://api.openweathermap.org/data/2.5/weather?lat=-33.8698439&lon=151.2082848&units=metric"
    );
    assert_eq!(
        forecast_url(&c),
        "https://api.openweathermap.org/data/2.5/forecast?lat=-33.8698439&lon=151.2082848&cnt=7&units=metric"
    );
}

#[test]
fn missing_credential_stops_the_client() {
    assert!(matches!(WeatherClient::new(None), Err(WeatherError::MissingCredential)));
    let client = WeatherClient::new(Some("k3y".to_string())).unwrap();
    assert_eq!(client.request_url("http://x/y?q=1"), "http://x/y?q=1&appid=k3y");
}

#[test]
fn reports_lay_out_fields() {
    let c = read_conditions(&parse_response(CURRENT)).unwrap();
    assert_eq!(
        current_report("Sydney", &c),
        "\nToday's Weather in Sydney is clear sky\n\nTemperature: 21.5\n\nMax: 23\n\nMin: 19\n"
    );
    let p = FormattedResult {
        datetime: time(2023, 11, 15, 9, 5, 30),
        utc_offset: 39600,
        current_temperature: "20.5".to_string(),
        max_temperature: "25".to_string(),
        min_temperature: "10".to_string(),
        weather_description: "light rain".to_string(),
    };
    let text = forecast_report("Sydney", &p);
    assert_eq!(
        text,
        "\nDatetime: 2023-11-15 09:05\n\nWeather in Sydney is light rain\n\nTemperature: 20.5\n\nMax: 25\n\nMin: 10\n"
    );
    assert_eq!(parse_datetime(&text[11..27]), Some(time(2023, 11, 15, 9, 5, 0)));
    let unused = CurrentConditions {
        current_temperature: String::new(),
        max_temperature: String::new(),
        min_temperature: String::new(),
        weather_description: String::new(),
    };
    assert_eq!(
        current_report("X", &unused),
        "\nToday's Weather in X is \n\nTemperature: \n\nMax: \n\nMin: \n"
    );
}

#[test]
fn local_datetime_at_range_edges() {
    let (last, _) = local_datetime(weather::datetime::LATEST_FOUR_DIGIT_SECS).unwrap();
    assert!(last.is_valid());
    let (first, _) = local_datetime(weather::datetime::EARLIEST_FOUR_DIGIT_SECS).unwrap();
    assert!(first.is_valid());
}

#[test]
fn forecast_single_entry_example() {
    let doc = parse_response(
        r#"{"list":[{"dt":1700000000,"main":{"temp":21.5,"temp_max":23.0,"temp_min":19.0},"weather":[{"description":"clear sky"}]}]}"#,
    );
    let points = get_timestamps_weather_forecasting(&doc).unwrap();
    assert_eq!(points.len(), 1);
    let t = chrono::Local.timestamp_opt(1700000000, 0).unwrap();
    assert_eq!(points[0].datetime.day, t.day());
    assert_eq!(points[0].datetime.hour, t.hour());
    assert_eq!(points[0].current_temperature, "21.5");
    assert_eq!(points[0].max_temperature, "23");
    assert_eq!(points[0].min_temperature, "19");
    assert_eq!(points[0].weather_description, "clear sky");
}

#[test]
fn nested_document_reads_whole() {
    let doc = parse_response(r#"{"a":[1,[2,{"b":"c"}]],"d":true,"e":null}"#);
    let inner = doc.get("a").unwrap().at(1).unwrap().at(1).unwrap().get("b").unwrap();
    assert!(matches!(inner, Json::Str(s) if s == "c"));
    assert!(matches!(doc.get("d"), Some(Json::Bool(true))));
    assert!(matches!(doc.get("e"), Some(Json::Null)));
    assert!(doc.get("z").is_none());
}

fn t_offset(secs: i64) -> i32 {
    chrono::Local.timestamp_opt(secs, 0).unwrap().offset().local_minus_utc()
}
