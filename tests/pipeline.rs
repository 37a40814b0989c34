use owm_exporter::config::{validate_configuration, Configuration, ConfigurationError};
use owm_exporter::constants::{generate_default_user_agent, HTTP_CLIENT_TIMEOUT};
use owm_exporter::exporter::{
    family_name, metric_family, process_reply, register, request_url, sample_for, serve_metrics, update_metrics,
    FetchOutcome, LocationError, FAMILY_COUNT,
};
use owm_exporter::openweathermap::{decode_weather, parse_int, parse_uint, DecodeError, Field};
use owm_exporter::registry::{MetricFamily, Registry, RegistrationError, Sample, ValueKind};
use owm_exporter::routes::{metrics_body, route, Route};

const TEMP: &str = "openweathermap_temperature_celsius";
const FEELS: &str = "openweathermap_apparent_temperature_celsius";
const TEMP_MIN: &str = "openweathermap_minimal_temperature_celsius";
const TEMP_MAX: &str = "openweathermap_maximal_temperature_celsius";
const PRESSURE: &str = "openweathermap_pressure_pascal";
const HUMIDITY: &str = "openweathermap_humidity_percent";
const WIND_SPEED: &str = "openweathermap_wind_speed_meters_per_hour";
const WIND_GUST: &str = "openweathermap_wind_gust_speed_meters_per_hour";
const WIND_DIRECTION: &str = "openweathermap_wind_direction_degree";
const CLOUD: &str = "openweathermap_cloud_coverage_percent";
const RAIN_1H: &str = "openweathermap_rain_precipation_last_hour_millimeter";
const RAIN_3H: &str = "openweathermap_rain_precipation_last_three_hours_millimeter";
const SNOW_1H: &str = "openweathermap_snow_precipation_last_hour_millimeter";
const SNOW_3H: &str = "openweathermap_snow_precipation_last_three_hours_millimeter";

const FULL: &str = r#"{"coord":{"lon":13.41,"lat":52.52},"weather":[{"id":803,"main":"Clouds","description":"broken clouds","icon":"04d"}],"base":"stations","main":{"temp":15.5,"feels_like":14.2,"temp_min":13.9,"temp_max":17.1,"pressure":1013,"humidity":57,"sea_level":1013,"grnd_level":1008},"visibility":10000,"wind":{"speed":4.6,"deg":250,"gust":9.2},"clouds":{"all":75},"rain":{"1h":0.3,"3h":1.25},"snow":{"1h":0.0,"3h":2.5},"dt":1700000000,"sys":{"type":2,"id":2011538,"country":"DE","sunrise":1699940000,"sunset":1699972000},"timezone":3600,"id":2950159,"name":"Berlin","cod":200}"#;

const PLAIN: &str = r#"{"main":{"temp":11.0,"feels_like":10.1,"temp_min":9.5,"temp_max":12.0,"pressure":1009,"humidity":80},"wind":{"speed":3.1,"deg":270},"clouds":{"all":40},"sys":{"country":"FR"},"name":"Paris"}"#;

fn weather(name: &str, country: &str, temp: &str) -> String {
    format!(
        r#"{{"main":{{"temp":{},"feels_like":1.0,"temp_min":0.5,"temp_max":2.0,"pressure":1000,"humidity":50}},"wind":{{"speed":1.0,"deg":90}},"clouds":{{"all":10}},"sys":{{"country":"{}"}},"name":"{}"}}"#,
        temp, country, name
    )
}

fn ok_reply(body: &str) -> FetchOutcome {
    FetchOutcome::Response { status: 200, body: body.to_string() }
}

fn standard_registry() -> Registry {
    let mut registry = Registry::new();
    register(&mut registry);
    assert_eq!(registry.family_count(), FAMILY_COUNT);
    registry
}

fn sample(registry: &Registry, family: &str, name: &str, country: &str) -> Option<String> {
    registry.sample_text(family, name, country)
}

#[test]
fn full_payload_publishes_every_family() {
    let mut registry = standard_registry();
    let o = process_reply(&mut registry, &ok_reply(FULL)).ok().unwrap();
    assert_eq!(o.name, "Berlin");
    assert_eq!(o.sys.country, "DE");
    let expect = [
        (TEMP, "15.5"),
        (FEELS, "14.2"),
        (TEMP_MIN, "13.9"),
        (TEMP_MAX, "17.1"),
        (PRESSURE, "101300"),
        (HUMIDITY, "0.57"),
        (WIND_SPEED, "4.6"),
        (WIND_GUST, "9.2"),
        (WIND_DIRECTION, "250"),
        (CLOUD, "0.75"),
        (RAIN_1H, "0.3"),
        (RAIN_3H, "1.25"),
        (SNOW_1H, "0.0"),
        (SNOW_3H, "2.5"),
    ];
    for (family, value) in expect.iter() {
        assert_eq!(sample(&registry, family, "Berlin", "DE").as_deref(), Some(*value), "{}", family);
    }
}

#[test]
fn missing_gust_leaves_gust_untouched() {
    let mut registry = standard_registry();
    assert!(process_reply(&mut registry, &ok_reply(FULL)).is_ok());
    let without_gust = FULL.replace(",\"gust\":9.2", "");
    let o = decode_weather(&without_gust).ok().unwrap();
    assert!(o.wind.gust.is_none());
    let changed = without_gust.replace("\"speed\":4.6", "\"speed\":5.5");
    assert!(process_reply(&mut registry, &ok_reply(&changed)).is_ok());
    assert_eq!(sample(&registry, WIND_SPEED, "Berlin", "DE").as_deref(), Some("5.5"));
    assert_eq!(sample(&registry, WIND_GUST, "Berlin", "DE").as_deref(), Some("9.2"));

    let mut fresh = standard_registry();
    assert!(process_reply(&mut fresh, &ok_reply(&without_gust)).is_ok());
    assert_eq!(sample(&fresh, WIND_GUST, "Berlin", "DE"), None);
}

#[test]
fn missing_precipitation_leaves_both_samples_untouched() {
    let mut registry = standard_registry();
    let o = decode_weather(PLAIN).ok().unwrap();
    assert!(o.rain.is_none() && o.snow.is_none());
    assert!(process_reply(&mut registry, &ok_reply(PLAIN)).is_ok());
    for family in [RAIN_1H, RAIN_3H, SNOW_1H, SNOW_3H].iter() {
        assert_eq!(sample(&registry, family, "Paris", "FR"), None);
    }
    let null_rain = PLAIN.replace("\"name\":\"Paris\"", "\"name\":\"Paris\",\"rain\":null,\"snow\":{\"3h\":0.5}");
    assert!(process_reply(&mut registry, &ok_reply(&null_rain)).is_ok());
    assert_eq!(sample(&registry, RAIN_1H, "Paris", "FR"), None);
    assert_eq!(sample(&registry, SNOW_1H, "Paris", "FR"), None);
    assert_eq!(sample(&registry, SNOW_3H, "Paris", "FR").as_deref(), Some("0.5"));
}

#[test]
fn failed_location_is_skipped() {
    let mut registry = standard_registry();
    let replies = vec![
        FetchOutcome::Response { status: 404, body: "{\"cod\":\"404\"}".to_string() },
        ok_reply(&weather("Paris", "FR", "18.2")),
        FetchOutcome::Failed,
    ];
    let outcomes = update_metrics(&mut registry, &replies);
    assert_eq!(outcomes, vec![Err(LocationError::Status(404)), Ok(()), Err(LocationError::Transport)]);
    assert_eq!(sample(&registry, TEMP, "Paris", "FR").as_deref(), Some("18.2"));
    let text = registry.encode();
    assert_eq!(text.matches("{country=").count(), 9);
    assert!(!text.contains("404"));
}

#[test]
fn registering_a_family_twice_fails() {
    let mut registry = standard_registry();
    for i in 0..FAMILY_COUNT {
        match registry.register_family(metric_family(i)) {
            Err(RegistrationError::Duplicate(name)) => assert_eq!(name, family_name(i)),
            Ok(()) => panic!("second registration succeeded"),
        }
    }
    assert_eq!(registry.family_count(), FAMILY_COUNT);
    let mut single = Registry::new();
    let family = || MetricFamily { name: "m".to_string(), help: "h".to_string(), kind: ValueKind::Float };
    assert!(single.register_family(family()).is_ok());
    assert!(single.register_family(family()).is_err());
    assert_eq!(single.family_count(), 1);
}

#[test]
fn two_locations_end_to_end() {
    let mut registry = standard_registry();
    let replies = vec![ok_reply(&weather("Berlin", "DE", "15.0")), ok_reply(&weather("Paris", "FR", "18.2"))];
    let text = serve_metrics(&mut registry, &replies);
    assert!(text.contains("openweathermap_temperature_celsius{country=\"DE\",name=\"Berlin\"} 15.0\n"));
    assert!(text.contains("openweathermap_temperature_celsius{country=\"FR\",name=\"Paris\"} 18.2\n"));
    assert_eq!(text.matches("openweathermap_temperature_celsius{").count(), 2);
    assert_eq!(text.matches("# HELP ").count(), FAMILY_COUNT);
    assert_eq!(text.matches("# TYPE ").count(), FAMILY_COUNT);
    assert!(text.starts_with(
        "# HELP openweathermap_temperature_celsius Temperature\n# TYPE openweathermap_temperature_celsius gauge\n"
    ));
}

#[test]
fn normalised_values_of_one_payload() {
    let mut registry = standard_registry();
    assert!(process_reply(&mut registry, &ok_reply(PLAIN)).is_ok());
    assert_eq!(sample(&registry, PRESSURE, "Paris", "FR").as_deref(), Some("100900"));
    assert_eq!(sample(&registry, HUMIDITY, "Paris", "FR").as_deref(), Some("0.8"));
    assert_eq!(sample(&registry, CLOUD, "Paris", "FR").as_deref(), Some("0.4"));
    assert_eq!(sample(&registry, WIND_SPEED, "Paris", "FR").as_deref(), Some("3.1"));
    assert_eq!(sample(&registry, WIND_DIRECTION, "Paris", "FR").as_deref(), Some("270"));
    for family in [WIND_GUST, RAIN_1H, RAIN_3H, SNOW_1H, SNOW_3H].iter() {
        assert_eq!(sample(&registry, family, "Paris", "FR"), None);
    }
    let text = registry.encode();
    assert!(text.contains("openweathermap_pressure_pascal{country=\"FR\",name=\"Paris\"} 100900\n"));
    assert!(!text.contains("openweathermap_wind_gust_speed_meters_per_hour{"));
}

#[test]
fn empty_registry_encodes_headers_only() {
    let registry = Registry::new();
    assert_eq!(registry.encode(), "");
    let mut registry = standard_registry();
    let text = serve_metrics(&mut registry, &vec![FetchOutcome::Failed]);
    assert_eq!(text.lines().count(), 2 * FAMILY_COUNT);
}

#[test]
fn decode_errors_name_the_field() {
    assert_eq!(decode_weather("not json").err(), Some(DecodeError::Syntax));
    let no_temp = PLAIN.replace("\"temp\":11.0,", "");
    assert_eq!(decode_weather(&no_temp).err(), Some(DecodeError::Missing(Field::MainTemp)));
    let no_main = r#"{"name":"X","sys":{"country":"DE"}}"#;
    assert_eq!(decode_weather(no_main).err(), Some(DecodeError::Missing(Field::Main)));
    let big_humidity = PLAIN.replace("\"humidity\":80", "\"humidity\":256");
    assert_eq!(decode_weather(&big_humidity).err(), Some(DecodeError::Invalid(Field::MainHumidity)));
    let float_deg = PLAIN.replace("\"deg\":270", "\"deg\":270.5");
    assert_eq!(decode_weather(&float_deg).err(), Some(DecodeError::Invalid(Field::WindDeg)));
    let text_gust = PLAIN.replace("\"deg\":270", "\"deg\":270,\"gust\":\"strong\"");
    assert_eq!(decode_weather(&text_gust).err(), Some(DecodeError::Invalid(Field::WindGust)));
    let bad_rain = PLAIN.replace("\"name\":\"Paris\"", "\"name\":\"Paris\",\"rain\":3");
    assert_eq!(decode_weather(&bad_rain).err(), Some(DecodeError::Invalid(Field::Rain)));
    assert_eq!(Field::MainTemp.path(), "main.temp");
    assert_eq!(Field::RainThreeHours.path(), "rain.3h");
}

#[test]
fn decode_failure_skips_location() {
    let mut registry = standard_registry();
    let reply = ok_reply("{\"name\":\"Oslo\"}");
    assert_eq!(process_reply(&mut registry, &reply).err(), Some(LocationError::Decode(DecodeError::Missing(Field::Sys))));
    assert_eq!(registry.encode().matches("{country=").count(), 0);
}

#[test]
fn optional_groups_decode() {
    let o = decode_weather(FULL).ok().unwrap();
    let c = o.coord.unwrap();
    assert_eq!((c.lat.as_str(), c.lon.as_str()), ("52.52", "13.41"));
    assert_eq!((o.main.sea_level, o.main.grnd_level), (Some(1013), Some(1008)));
    let p = decode_weather(PLAIN).ok().unwrap();
    assert!(p.coord.is_none() && p.main.sea_level.is_none() && p.main.grnd_level.is_none());
    let no_lat = FULL.replace("\"lat\":52.52", "\"x\":1");
    assert_eq!(decode_weather(&no_lat).err(), Some(DecodeError::Missing(Field::CoordLat)));
    let text_lon = FULL.replace("\"lon\":13.41", "\"lon\":\"east\"");
    assert_eq!(decode_weather(&text_lon).err(), Some(DecodeError::Invalid(Field::CoordLon)));
}

#[test]
fn weather_conditions_decode() {
    let o = decode_weather(FULL).ok().unwrap();
    assert_eq!(o.weather.len(), 1);
    let w = &o.weather[0];
    assert_eq!((w.id, w.main.as_str(), w.description.as_str(), w.icon.as_str()), (803, "Clouds", "broken clouds", "04d"));
    assert!(decode_weather(PLAIN).ok().unwrap().weather.is_empty());
    let no_icon = FULL.replace(",\"icon\":\"04d\"", "");
    assert_eq!(decode_weather(&no_icon).err(), Some(DecodeError::Missing(Field::WeatherIcon)));
    let not_list = PLAIN.replace("\"name\":\"Paris\"", "\"name\":\"Paris\",\"weather\":\"x\"");
    assert_eq!(decode_weather(&not_list).err(), Some(DecodeError::Invalid(Field::Weather)));
    let not_object = PLAIN.replace("\"name\":\"Paris\"", "\"name\":\"Paris\",\"weather\":[1]");
    assert_eq!(decode_weather(&not_object).err(), Some(DecodeError::Invalid(Field::Weather)));
}

#[test]
fn non_core_temperatures_are_optional() {
    let mut registry = standard_registry();
    assert!(process_reply(&mut registry, &ok_reply(PLAIN)).is_ok());
    let core_only = PLAIN
        .replace("\"feels_like\":10.1,", "")
        .replace("\"temp_min\":9.5,", "")
        .replace("\"temp_max\":12.0,", "")
        .replace("\"temp\":11.0", "\"temp\":12.5");
    let o = decode_weather(&core_only).ok().unwrap();
    assert!(o.main.feels_like.is_none() && o.main.temp_min.is_none() && o.main.temp_max.is_none());
    assert!(process_reply(&mut registry, &ok_reply(&core_only)).is_ok());
    assert_eq!(sample(&registry, TEMP, "Paris", "FR").as_deref(), Some("12.5"));
    assert_eq!(sample(&registry, FEELS, "Paris", "FR").as_deref(), Some("10.1"));
    assert_eq!(sample(&registry, TEMP_MIN, "Paris", "FR").as_deref(), Some("9.5"));
    assert_eq!(sample(&registry, TEMP_MAX, "Paris", "FR").as_deref(), Some("12.0"));
    let mut fresh = standard_registry();
    assert!(process_reply(&mut fresh, &ok_reply(&core_only)).is_ok());
    assert_eq!(sample(&fresh, FEELS, "Paris", "FR"), None);
    let bad_min = PLAIN.replace("\"temp_min\":9.5", "\"temp_min\":\"cold\"");
    assert_eq!(decode_weather(&bad_min).err(), Some(DecodeError::Invalid(Field::MainTempMin)));
}

#[test]
fn requests_are_routed() {
    assert_eq!(route(false, "/metrics"), Route::MethodNotAllowed);
    assert_eq!(route(true, "/"), Route::Root);
    assert_eq!(route(true, "/metrics"), Route::Metrics);
    assert_eq!(route(true, "/other"), Route::NotFound);
    assert_eq!(metrics_body(String::new()), "\n");
    assert_eq!(metrics_body("a 1\n".to_string()), "a 1\n");
}

#[test]
fn error_messages() {
    assert_eq!(ConfigurationError::MissingApiKey.message(), "Missing API key");
    assert_eq!(ConfigurationError::NoLocations.message(), "No locations to query");
    assert_eq!(Field::MainFeelsLike.path(), "main.feels_like");
    assert_eq!(Field::WeatherIcon.path(), "weather.icon");
}

#[test]
fn any_success_status_is_accepted() {
    let mut registry = standard_registry();
    let reply = FetchOutcome::Response { status: 203, body: PLAIN.to_string() };
    assert!(process_reply(&mut registry, &reply).is_ok());
    assert_eq!(sample(&registry, PRESSURE, "Paris", "FR").as_deref(), Some("100900"));
    let redirect = FetchOutcome::Response { status: 301, body: PLAIN.to_string() };
    assert_eq!(process_reply(&mut registry, &redirect).err(), Some(LocationError::Status(301)));
    let early = FetchOutcome::Response { status: 199, body: PLAIN.to_string() };
    assert_eq!(process_reply(&mut registry, &early).err(), Some(LocationError::Status(199)));
}

#[test]
fn descriptive_fields_decode() {
    let o = decode_weather(FULL).ok().unwrap();
    assert_eq!(o.base.as_deref(), Some("stations"));
    assert_eq!(o.cod, Some(200));
    assert_eq!(o.dt, Some(1700000000));
    assert_eq!(o.id, Some(2950159));
    assert_eq!(o.timezone, Some(3600));
    assert_eq!(o.visibility, Some(10000));
    assert_eq!(o.sys.id, Some(2011538));
    assert_eq!(o.sys.owm_type, Some(2));
    assert_eq!((o.sys.sunrise, o.sys.sunset), (Some(1699940000), Some(1699972000)));
    let p = decode_weather(PLAIN).ok().unwrap();
    assert!(p.base.is_none() && p.cod.is_none() && p.dt.is_none() && p.id.is_none());
    assert!(p.timezone.is_none() && p.visibility.is_none() && p.sys.id.is_none() && p.sys.sunrise.is_none());
    let west = FULL.replace("\"timezone\":3600", "\"timezone\":-18000");
    assert_eq!(decode_weather(&west).ok().unwrap().timezone, Some(-18000));
    let bad_cod = FULL.replace("\"cod\":200", "\"cod\":\"200\"");
    assert_eq!(decode_weather(&bad_cod).err(), Some(DecodeError::Invalid(Field::Cod)));
    let bad_sunset = FULL.replace("\"sunset\":1699972000", "\"sunset\":-1");
    assert_eq!(decode_weather(&bad_sunset).err(), Some(DecodeError::Invalid(Field::SysSunset)));
}

#[test]
fn signed_integers_parse_within_bounds() {
    assert_eq!(parse_int("-18000", 0x7fff_ffff), Some(-18000));
    assert_eq!(parse_int("42", 0x7fff_ffff), Some(42));
    assert_eq!(parse_int("-2147483647", 0x7fff_ffff), Some(-2147483647));
    assert_eq!(parse_int("2147483648", 0x7fff_ffff), None);
    assert_eq!(parse_int("-", 0x7fff_ffff), None);
    assert_eq!(parse_int("--1", 0x7fff_ffff), None);
    assert_eq!(parse_uint("18446744073709551615", u64::MAX), Some(u64::MAX));
    assert_eq!(parse_uint("18446744073709551616", u64::MAX), None);
}

#[test]
fn zero_is_a_value_not_an_absence() {
    let zero_gust = PLAIN.replace("\"deg\":270", "\"deg\":270,\"gust\":0");
    let o = decode_weather(&zero_gust).ok().unwrap();
    assert_eq!(o.wind.gust.as_deref(), Some("0"));
    let null_gust = PLAIN.replace("\"deg\":270", "\"deg\":270,\"gust\":null");
    assert!(decode_weather(&null_gust).ok().unwrap().wind.gust.is_none());
}

#[test]
fn integers_parse_within_bounds() {
    assert_eq!(parse_uint("0", 255), Some(0));
    assert_eq!(parse_uint("255", 255), Some(255));
    assert_eq!(parse_uint("256", 255), None);
    assert_eq!(parse_uint("4294967295", 0xffff_ffff), Some(4294967295));
    assert_eq!(parse_uint("4294967296", 0xffff_ffff), None);
    assert_eq!(parse_uint("", 255), None);
    assert_eq!(parse_uint("-1", 255), None);
    assert_eq!(parse_uint("1.5", 255), None);
}

#[test]
fn sample_texts() {
    assert_eq!(Sample::Hundredths(80).to_text(), "0.8");
    assert_eq!(Sample::Hundredths(57).to_text(), "0.57");
    assert_eq!(Sample::Hundredths(5).to_text(), "0.05");
    assert_eq!(Sample::Hundredths(100).to_text(), "1");
    assert_eq!(Sample::Hundredths(0).to_text(), "0");
    assert_eq!(Sample::Hundredths(255).to_text(), "2.55");
    assert_eq!(Sample::Count(0).to_text(), "0");
    assert_eq!(Sample::Count(429496729500).to_text(), "429496729500");
    assert_eq!(Sample::Reading("-3.5".to_string()).to_text(), "-3.5");
}

#[test]
fn label_values_are_escaped() {
    let mut registry = Registry::new();
    assert!(registry.register_family(MetricFamily { name: "m".to_string(), help: "a\\b\nc".to_string(), kind: ValueKind::Integer }).is_ok());
    assert!(registry.set_value("m", "Say \"hi\"\n", "X\\Y", Sample::Count(7)));
    assert!(!registry.set_value("other", "a", "b", Sample::Count(1)));
    assert_eq!(
        registry.encode(),
        "# HELP m a\\\\b\\nc\n# TYPE m gauge\nm{country=\"X\\\\Y\",name=\"Say \\\"hi\\\"\\n\"} 7\n"
    );
}

#[test]
fn series_are_updated_in_place() {
    let mut registry = Registry::new();
    assert!(registry.register_family(MetricFamily { name: "m".to_string(), help: "h".to_string(), kind: ValueKind::Float }).is_ok());
    assert!(registry.set_value("m", "A", "X", Sample::Count(1)));
    assert!(registry.set_value("m", "B", "X", Sample::Count(2)));
    assert!(registry.set_value("m", "A", "X", Sample::Count(3)));
    assert_eq!(
        registry.encode(),
        "# HELP m h\n# TYPE m gauge\nm{country=\"X\",name=\"A\"} 3\nm{country=\"X\",name=\"B\"} 2\n"
    );
}

#[test]
fn configuration_checks() {
    let cfg = |key: &str, locations: Vec<&str>| Configuration {
        api_key: key.to_string(),
        locations: locations.into_iter().map(|l| l.to_string()).collect(),
        timeout: None,
        units: None,
    };
    assert_eq!(validate_configuration(&cfg("", vec!["Berlin"])), Err(ConfigurationError::MissingApiKey));
    assert_eq!(validate_configuration(&cfg("k", vec![])), Err(ConfigurationError::NoLocations));
    assert_eq!(validate_configuration(&cfg("", vec![])), Err(ConfigurationError::MissingApiKey));
    assert_eq!(validate_configuration(&cfg("k", vec!["Berlin"])), Ok(()));
    let mut c = cfg("k", vec!["Berlin"]);
    assert_eq!(c.effective_timeout(), HTTP_CLIENT_TIMEOUT);
    assert_eq!(c.effective_units(), "metric");
    c.timeout = Some(3);
    c.units = Some("imperial".to_string());
    assert_eq!(c.effective_timeout(), 3);
    assert_eq!(c.effective_units(), "imperial");
}

#[test]
fn request_and_identity_strings() {
    assert_eq!(
        request_url("Berlin", "metric", "SECRET"),
        "https://api.openweathermap.org/data/2.5/weather?q=Berlin&units=metric&APPID=SECRET"
    );
    assert_eq!(
        generate_default_user_agent(),
        "prometheus-openweathermap-exporter/1.0.0 (https://ypbind.de/cgit/prometheus-openweathermap-exporter/)"
    );
}

#[test]
fn family_table() {
    assert_eq!(family_name(0), TEMP);
    assert_eq!(family_name(13), SNOW_3H);
    let f = metric_family(4);
    assert_eq!(f.name, PRESSURE);
    assert_eq!(f.help, "Air pressure");
    for i in 0..FAMILY_COUNT {
        let expected = if i == 4 || i == 8 { ValueKind::Integer } else { ValueKind::Float };
        assert_eq!(metric_family(i).kind, expected);
    }
    assert_eq!(family_name(8), WIND_DIRECTION);
    let o = decode_weather(PLAIN).ok().unwrap();
    assert!(matches!(sample_for(&o, 4), Some(Sample::Count(100900))));
    assert!(sample_for(&o, 7).is_none());
}
