//! Fixed names, paths and defaults of the exporter.
use vstd::prelude::*;
use vstd::string::StringExecFns;

verus! {

pub const NAME: &'static str = "prometheus-openweathermap-exporter";

pub const VERSION: &'static str = "1.0.0";

pub const DEFAULT_PROMETHEUS_ADDRESS: &'static str = "localhost:9943";

pub const REPO_URL: &'static str = "https://ypbind.de/cgit/prometheus-openweathermap-exporter/";

pub const ROOT_HTML: &'static str = "<html>\n<head><title>OpenWeatherMap exporter</title></head>\n<body>\n<h1>OpenWeatherMap exporter</h1>\n<p><a href=\"/metrics\">Metrics</a></p>\n</body>\n</html>\n";

pub const METRICS_PATH: &'static str = "/metrics";

/// Seconds an outbound request may take when the configuration names no timeout.
pub const HTTP_CLIENT_TIMEOUT: u64 = 15;

pub const DEFAULT_OWM_UNITS: &'static str = "metric";

pub const OWM_URL: &'static str = "https://api.openweathermap.org/data/2.5/weather";

pub const METRIC_TEMP_NAME: &'static str = "openweathermap_temperature_celsius";

pub const METRIC_TEMP_HELP: &'static str = "Temperature";

pub const METRIC_TEMP_FEELS_LIKE_NAME: &'static str = "openweathermap_apparent_temperature_celsius";

pub const METRIC_TEMP_FEELS_LIKE_HELP: &'static str = "Apparent temperature";

pub const METRIC_TEMP_MIN_NAME: &'static str = "openweathermap_minimal_temperature_celsius";

pub const METRIC_TEMP_MIN_HELP: &'static str = "Minimal temperature";

pub const METRIC_TEMP_MAX_NAME: &'static str = "openweathermap_maximal_temperature_celsius";

pub const METRIC_TEMP_MAX_HELP: &'static str = "Maximal temperature";

pub const METRIC_PRESSURE_NAME: &'static str = "openweathermap_pressure_pascal";

pub const METRIC_PRESSURE_HELP: &'static str = "Air pressure";

pub const METRIC_HUMIDITY_NAME: &'static str = "openweathermap_humidity_percent";

pub const METRIC_HUMIDITY_HELP: &'static str = "Relative humidity";

pub const METRIC_WIND_SPEED_NAME: &'static str = "openweathermap_wind_speed_meters_per_hour";

pub const METRIC_WIND_SPEED_HELP: &'static str = "Wind speed";

pub const METRIC_WIND_GUST_NAME: &'static str = "openweathermap_wind_gust_speed_meters_per_hour";

pub const METRIC_WIND_GUST_HELP: &'static str = "Wind gust speed";

pub const METRIC_WIND_DIRECTION_NAME: &'static str = "openweathermap_wind_direction_degree";

pub const METRIC_WIND_DIRECTION_HELP: &'static str = "Wind direction";

pub const METRIC_CLOUD_NAME: &'static str = "openweathermap_cloud_coverage_percent";

pub const METRIC_CLOUD_HELP: &'static str = "Cloud coverage";

pub const METRIC_RAIN_1H_NAME: &'static str = "openweathermap_rain_precipation_last_hour_millimeter";

pub const METRIC_RAIN_1H_HELP: &'static str = "Rain precipitation volume for last hour";

pub const METRIC_RAIN_3H_NAME: &'static str = "openweathermap_rain_precipation_last_three_hours_millimeter";

pub const METRIC_RAIN_3H_HELP: &'static str = "Rain precipitation volume for last three hours";

pub const METRIC_SNOW_1H_NAME: &'static str = "openweathermap_snow_precipation_last_hour_millimeter";

pub const METRIC_SNOW_1H_HELP: &'static str = "Snow precipitation volume for last hour";

pub const METRIC_SNOW_3H_NAME: &'static str = "openweathermap_snow_precipation_last_three_hours_millimeter";

pub const METRIC_SNOW_3H_HELP: &'static str = "Snow precipitation volume for last three hours";

/// The user agent the exporter identifies itself with: `NAME/VERSION (REPO_URL)`.
pub open spec fn user_agent_text() -> Seq<char> {
    NAME@ + "/"@ + VERSION@ + " ("@ + REPO_URL@ + ")"@
}

pub fn generate_default_user_agent() -> (r: String)
    ensures
        r@ == user_agent_text(),
{
    let mut s = String::from_str(NAME);
    s.append("/");
    s.append(VERSION);
    s.append(" (");
    s.append(REPO_URL);
    s.append(")");
    s
}

} // verus!
