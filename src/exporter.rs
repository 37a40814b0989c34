//! The exporter's pipeline: the fixed table of metric families, the
//! normalisation of an observation into samples, and the pass over the
//! replies for the configured locations.
use vstd::prelude::*;
use vstd::string::StringExecFns;
use crate::constants::{
    METRIC_CLOUD_HELP, METRIC_CLOUD_NAME, METRIC_HUMIDITY_HELP, METRIC_HUMIDITY_NAME,
    METRIC_PRESSURE_HELP, METRIC_PRESSURE_NAME, METRIC_RAIN_1H_HELP, METRIC_RAIN_1H_NAME,
    METRIC_RAIN_3H_HELP, METRIC_RAIN_3H_NAME, METRIC_SNOW_1H_HELP, METRIC_SNOW_1H_NAME,
    METRIC_SNOW_3H_HELP, METRIC_SNOW_3H_NAME, METRIC_TEMP_FEELS_LIKE_HELP,
    METRIC_TEMP_FEELS_LIKE_NAME, METRIC_TEMP_HELP, METRIC_TEMP_MAX_HELP, METRIC_TEMP_MAX_NAME,
    METRIC_TEMP_MIN_HELP, METRIC_TEMP_MIN_NAME, METRIC_TEMP_NAME, METRIC_WIND_DIRECTION_HELP,
    METRIC_WIND_DIRECTION_NAME, METRIC_WIND_GUST_HELP, METRIC_WIND_GUST_NAME,
    METRIC_WIND_SPEED_HELP, METRIC_WIND_SPEED_NAME, OWM_URL,
};
use crate::json::document_of;
use crate::openweathermap::{
    decodable, decode_weather, error_field, field_error, observation_matches, DecodeError, OpenWeatherMap, OpenWeatherMapRainOrSnow,
};
use crate::registry::{
    contains_text, exposition, family_index, lemma_exposition_shows_sample, lemma_set_sample_wf, series_line, SeriesView, lemma_value_after_set, registry_wf, set_sample, value_of,
    FamilyView, MetricFamily, ValueKind, Registry, RegistrationError, Sample, SampleView,
};

verus! {

/// How many metric families the exporter publishes.
pub const FAMILY_COUNT: usize = 14;

/// The names of the metric families, in declaration order.
pub open spec fn family_names() -> Seq<Seq<char>> {
    seq![
        METRIC_TEMP_NAME@,
        METRIC_TEMP_FEELS_LIKE_NAME@,
        METRIC_TEMP_MIN_NAME@,
        METRIC_TEMP_MAX_NAME@,
        METRIC_PRESSURE_NAME@,
        METRIC_HUMIDITY_NAME@,
        METRIC_WIND_SPEED_NAME@,
        METRIC_WIND_GUST_NAME@,
        METRIC_WIND_DIRECTION_NAME@,
        METRIC_CLOUD_NAME@,
        METRIC_RAIN_1H_NAME@,
        METRIC_RAIN_3H_NAME@,
        METRIC_SNOW_1H_NAME@,
        METRIC_SNOW_3H_NAME@,
    ]
}

pub open spec fn family_helps() -> Seq<Seq<char>> {
    seq![
        METRIC_TEMP_HELP@,
        METRIC_TEMP_FEELS_LIKE_HELP@,
        METRIC_TEMP_MIN_HELP@,
        METRIC_TEMP_MAX_HELP@,
        METRIC_PRESSURE_HELP@,
        METRIC_HUMIDITY_HELP@,
        METRIC_WIND_SPEED_HELP@,
        METRIC_WIND_GUST_HELP@,
        METRIC_WIND_DIRECTION_HELP@,
        METRIC_CLOUD_HELP@,
        METRIC_RAIN_1H_HELP@,
        METRIC_RAIN_3H_HELP@,
        METRIC_SNOW_1H_HELP@,
        METRIC_SNOW_3H_HELP@,
    ]
}

/// Pressure and wind direction are whole numbers; every other family is decimal.
pub open spec fn family_kind(i: int) -> ValueKind {
    if i == 4 || i == 8 {
        ValueKind::Integer
    } else {
        ValueKind::Float
    }
}

/// The families as they stand right after registration: no series yet.
pub open spec fn standard_families() -> Seq<FamilyView> {
    Seq::new(14, |i: int| FamilyView { name: family_names()[i], help: family_helps()[i], kind: family_kind(i), series: Seq::empty() })
}

/// No two metric families share a name.
pub proof fn lemma_family_names_distinct()
    ensures
        forall|i: int, j: int| 0 <= i < j < 14 ==> family_names()[i] != family_names()[j],
{
    reveal_strlit("openweathermap_temperature_celsius");
    reveal_strlit("openweathermap_apparent_temperature_celsius");
    reveal_strlit("openweathermap_minimal_temperature_celsius");
    reveal_strlit("openweathermap_maximal_temperature_celsius");
    reveal_strlit("openweathermap_pressure_pascal");
    reveal_strlit("openweathermap_humidity_percent");
    reveal_strlit("openweathermap_wind_speed_meters_per_hour");
    reveal_strlit("openweathermap_wind_gust_speed_meters_per_hour");
    reveal_strlit("openweathermap_wind_direction_degree");
    reveal_strlit("openweathermap_cloud_coverage_percent");
    reveal_strlit("openweathermap_rain_precipation_last_hour_millimeter");
    reveal_strlit("openweathermap_rain_precipation_last_three_hours_millimeter");
    reveal_strlit("openweathermap_snow_precipation_last_hour_millimeter");
    reveal_strlit("openweathermap_snow_precipation_last_three_hours_millimeter");
    assert forall|i: int, j: int| 0 <= i < j < 14 implies family_names()[i] != family_names()[j] by {
        if family_names()[i].len() == family_names()[j].len() {
            assert(family_names()[i][16] != family_names()[j][16] || family_names()[i][15] != family_names()[j][15]);
        }
    }
}

/// The name of the `i`-th metric family.
pub fn family_name(i: usize) -> (r: &'static str)
    requires
        i < FAMILY_COUNT,
    ensures
        r@ == family_names()[i as int],
{
    match i {
        0 => METRIC_TEMP_NAME,
        1 => METRIC_TEMP_FEELS_LIKE_NAME,
        2 => METRIC_TEMP_MIN_NAME,
        3 => METRIC_TEMP_MAX_NAME,
        4 => METRIC_PRESSURE_NAME,
        5 => METRIC_HUMIDITY_NAME,
        6 => METRIC_WIND_SPEED_NAME,
        7 => METRIC_WIND_GUST_NAME,
        8 => METRIC_WIND_DIRECTION_NAME,
        9 => METRIC_CLOUD_NAME,
        10 => METRIC_RAIN_1H_NAME,
        11 => METRIC_RAIN_3H_NAME,
        12 => METRIC_SNOW_1H_NAME,
        _ => METRIC_SNOW_3H_NAME,
    }
}

/// The help text of the `i`-th metric family.
pub fn family_help(i: usize) -> (r: &'static str)
    requires
        i < FAMILY_COUNT,
    ensures
        r@ == family_helps()[i as int],
{
    match i {
        0 => METRIC_TEMP_HELP,
        1 => METRIC_TEMP_FEELS_LIKE_HELP,
        2 => METRIC_TEMP_MIN_HELP,
        3 => METRIC_TEMP_MAX_HELP,
        4 => METRIC_PRESSURE_HELP,
        5 => METRIC_HUMIDITY_HELP,
        6 => METRIC_WIND_SPEED_HELP,
        7 => METRIC_WIND_GUST_HELP,
        8 => METRIC_WIND_DIRECTION_HELP,
        9 => METRIC_CLOUD_HELP,
        10 => METRIC_RAIN_1H_HELP,
        11 => METRIC_RAIN_3H_HELP,
        12 => METRIC_SNOW_1H_HELP,
        _ => METRIC_SNOW_3H_HELP,
    }
}

/// The `i`-th metric family of the table.
pub fn metric_family(i: usize) -> (r: MetricFamily)
    requires
        i < FAMILY_COUNT,
    ensures
        r.name@ == family_names()[i as int],
        r.help@ == family_helps()[i as int],
        r.kind == family_kind(i as int),
{
    let kind = if i == 4 || i == 8 {
        ValueKind::Integer
    } else {
        ValueKind::Float
    };
    MetricFamily { name: String::from_str(family_name(i)), help: String::from_str(family_help(i)), kind }
}

/// Registers every metric family of the table, in declaration order, into a
/// registry that holds none of them. Registering them a second time is a
/// programming error, which the precondition rules out.
pub fn register(registry: &mut Registry)
    requires
        registry_wf(old(registry)@),
        forall|k: int| 0 <= k < 14 ==> family_index(old(registry)@, #[trigger] family_names()[k]) is None,
    ensures
        registry_wf(final(registry)@),
        final(registry)@ == old(registry)@ + standard_families(),
{
    let ghost start = registry@;
    proof {
        lemma_family_names_distinct();
    }
    let mut i: usize = 0;
    while i < FAMILY_COUNT
        invariant
            i <= 14,
            registry_wf(registry@),
            registry@ == start + standard_families().take(i as int),
            forall|k: int| 0 <= k < 14 ==> family_index(start, #[trigger] family_names()[k]) is None,
            forall|i: int, j: int| 0 <= i < j < 14 ==> family_names()[i] != family_names()[j],
        decreases 14 - i,
    {
        let family = metric_family(i);
        let ghost cur = registry@;
        let ghost name = family_names()[i as int];
        let r = registry.register_family(family);
        proof {
            if r is Err {
                let k = choose|k: int| 0 <= k < cur.len() && cur[k].name == name;
                if k >= start.len() {
                    assert(cur[k] == standard_families()[k - start.len()]);
                    assert(family_names()[k - start.len()] != name);
                }
                assert(start[k].name == name);
                assert(family_index(start, family_names()[i as int]) is Some);
            }
            assert(start + standard_families().take(i + 1) =~= cur.push(standard_families()[i as int]));
        }
        i = i + 1;
    }
    assert(standard_families().take(14) =~= standard_families());
}

pub open spec fn reading_sample(t: Option<Seq<char>>) -> Option<SampleView> {
    match t {
        Some(t) => Some(SampleView::Reading(t)),
        None => None,
    }
}

pub open spec fn string_view(t: Option<String>) -> Option<Seq<char>> {
    match t {
        Some(t) => Some(t@),
        None => None,
    }
}

pub open spec fn precipitation_sample(p: Option<OpenWeatherMapRainOrSnow>, three_hours: bool) -> Option<SampleView> {
    match p {
        Some(p) => reading_sample(string_view(if three_hours { p.three_h } else { p.one_h })),
        None => None,
    }
}

/// The normalised sample that the observation `o` publishes in the `k`-th
/// family: pressure in pascal (100 per hectopascal), humidity and cloud
/// coverage as fractions, every other value as decoded, unconverted. Nothing
/// where the observation lacks the value.
pub open spec fn published(o: OpenWeatherMap, k: int) -> Option<SampleView> {
    if k == 0 {
        Some(SampleView::Reading(o.main.temp@))
    } else if k == 1 {
        reading_sample(string_view(o.main.feels_like))
    } else if k == 2 {
        reading_sample(string_view(o.main.temp_min))
    } else if k == 3 {
        reading_sample(string_view(o.main.temp_max))
    } else if k == 4 {
        Some(SampleView::Count(100 * o.main.pressure as nat))
    } else if k == 5 {
        Some(SampleView::Hundredths(o.main.humidity as nat))
    } else if k == 6 {
        Some(SampleView::Reading(o.wind.speed@))
    } else if k == 7 {
        reading_sample(string_view(o.wind.gust))
    } else if k == 8 {
        Some(SampleView::Count(o.wind.deg as nat))
    } else if k == 9 {
        Some(SampleView::Hundredths(o.clouds.all as nat))
    } else if k == 10 {
        precipitation_sample(o.rain, false)
    } else if k == 11 {
        precipitation_sample(o.rain, true)
    } else if k == 12 {
        precipitation_sample(o.snow, false)
    } else if k == 13 {
        precipitation_sample(o.snow, true)
    } else {
        None
    }
}

pub open spec fn sample_view(r: Option<Sample>) -> Option<SampleView> {
    match r {
        Some(v) => Some(v@),
        None => None,
    }
}

fn reading(t: &Option<String>) -> (r: Option<Sample>)
    ensures
        sample_view(r) == reading_sample(string_view(*t)),
{
    match t {
        Some(t) => Some(Sample::Reading(t.clone())),
        None => None,
    }
}

fn precipitation(p: &Option<OpenWeatherMapRainOrSnow>, three_hours: bool) -> (r: Option<Sample>)
    ensures
        sample_view(r) == precipitation_sample(*p, three_hours),
{
    match p {
        Some(p) => if three_hours { reading(&p.three_h) } else { reading(&p.one_h) },
        None => None,
    }
}

/// The sample the observation publishes in the `k`-th family.
pub fn sample_for(o: &OpenWeatherMap, k: usize) -> (r: Option<Sample>)
    requires
        k < FAMILY_COUNT,
    ensures
        sample_view(r) == published(*o, k as int),
{
    match k {
        0 => Some(Sample::Reading(o.main.temp.clone())),
        1 => reading(&o.main.feels_like),
        2 => reading(&o.main.temp_min),
        3 => reading(&o.main.temp_max),
        4 => Some(Sample::Count(100 * o.main.pressure as u64)),
        5 => Some(Sample::Hundredths(o.main.humidity as u64)),
        6 => Some(Sample::Reading(o.wind.speed.clone())),
        7 => reading(&o.wind.gust),
        8 => Some(Sample::Count(o.wind.deg as u64)),
        9 => Some(Sample::Hundredths(o.clouds.all as u64)),
        10 => precipitation(&o.rain, false),
        11 => precipitation(&o.rain, true),
        12 => precipitation(&o.snow, false),
        _ => precipitation(&o.snow, true),
    }
}

/// The registry after the first `k` families took what the observation
/// publishes for its location and country.
pub open spec fn apply_upto(fams: Seq<FamilyView>, o: OpenWeatherMap, k: nat) -> Seq<FamilyView>
    decreases k,
{
    if k == 0 {
        fams
    } else {
        let before = apply_upto(fams, o, (k - 1) as nat);
        match published(o, k - 1) {
            Some(v) => set_sample(before, family_names()[k - 1], o.name@, o.sys.country@, v),
            None => before,
        }
    }
}

/// The registry after it took what the observation publishes.
pub open spec fn apply_observation(fams: Seq<FamilyView>, o: OpenWeatherMap) -> Seq<FamilyView> {
    apply_upto(fams, o, 14)
}

/// Writes the observation's normalised samples, under its location name and
/// country code, into every family that it has a value for.
pub fn update_location(registry: &mut Registry, o: &OpenWeatherMap)
    requires
        registry_wf(old(registry)@),
        kinds_follow_table(old(registry)@),
    ensures
        registry_wf(final(registry)@),
        kinds_follow_table(final(registry)@),
        final(registry)@ == apply_observation(old(registry)@, *o),
{
    let mut k: usize = 0;
    while k < FAMILY_COUNT
        invariant
            k <= 14,
            registry_wf(registry@),
            registry@ == apply_upto(old(registry)@, *o, k as nat),
            kinds_follow_table(registry@),
        decreases 14 - k,
    {
        match sample_for(o, k) {
            Some(v) => {
                proof {
                    if let Some(i) = family_index(registry@, family_names()[k as int]) {
                        assert(registry@[i].name == family_names()[k as int]);
                    }
                    lemma_set_sample_wf(registry@, family_names()[k as int], o.name@, o.sys.country@, v@);
                }
                registry.set_value(family_name(k), o.name.as_str(), o.sys.country.as_str(), v);
                proof {
                    assert forall|j: int, i: int|
                        0 <= j < 14 && 0 <= i < registry@.len() && #[trigger] registry@[i].name == #[trigger] family_names()[j]
                        implies registry@[i].kind == family_kind(j) by {
                        let before = apply_upto(old(registry)@, *o, k as nat);
                        assert(before[i].name == registry@[i].name);
                    }
                }
            },
            None => {},
        }
        k = k + 1;
    }
}

/// A family that bears a name of the table has the table's value kind.
pub open spec fn kinds_follow_table(fams: Seq<FamilyView>) -> bool {
    forall|k: int, i: int|
        0 <= k < 14 && 0 <= i < fams.len() && #[trigger] fams[i].name == #[trigger] family_names()[k]
            ==> fams[i].kind == family_kind(k)
}

/// Every family of the table is registered.
pub open spec fn registers_standard_families(fams: Seq<FamilyView>) -> bool {
    forall|k: int| 0 <= k < 14 ==> #[trigger] family_index(fams, family_names()[k]) is Some
}

/// The registry that startup builds, the table's families with no series,
/// is well formed and holds every family of the table, as the laws on
/// published samples require.
pub proof fn lemma_startup_registry()
    ensures
        registry_wf(standard_families()),
        registers_standard_families(standard_families()),
        kinds_follow_table(standard_families()),
{
    lemma_family_names_distinct();
    let fams = standard_families();
    assert forall|k: int| 0 <= k < 14 implies #[trigger] family_index(fams, family_names()[k]) is Some by {
        assert(fams[k].name == family_names()[k]);
    }
}

proof fn lemma_apply_upto_wf(fams: Seq<FamilyView>, o: OpenWeatherMap, m: nat)
    requires
        registry_wf(fams),
        m <= 14,
    ensures
        registry_wf(apply_upto(fams, o, m)),
        apply_upto(fams, o, m).len() == fams.len(),
        forall|i: int| 0 <= i < fams.len() ==> (#[trigger] apply_upto(fams, o, m)[i]).name == fams[i].name
            && apply_upto(fams, o, m)[i].kind == fams[i].kind,
    decreases m,
{
    if m > 0 {
        let before = apply_upto(fams, o, (m - 1) as nat);
        lemma_apply_upto_wf(fams, o, (m - 1) as nat);
        if let Some(v) = published(o, m - 1) {
            lemma_set_sample_wf(before, family_names()[m - 1], o.name@, o.sys.country@, v);
            assert forall|i: int| 0 <= i < fams.len() implies (#[trigger] apply_upto(fams, o, m)[i]).name == fams[i].name by {
                assert(apply_upto(fams, o, m)[i].name == before[i].name);
                assert(apply_upto(fams, o, m)[i].kind == before[i].kind);
            }
        }
    }
}

proof fn lemma_same_families(a: Seq<FamilyView>, b: Seq<FamilyView>, name: Seq<char>)
    requires
        a.len() == b.len(),
        forall|i: int| 0 <= i < a.len() ==> (#[trigger] a[i]).name == b[i].name,
    ensures
        (family_index(a, name) is Some) == (family_index(b, name) is Some),
{
    if family_index(a, name) is Some {
        let i = family_index(a, name)->Some_0;
        assert(b[i].name == name);
    }
    if family_index(b, name) is Some {
        let i = family_index(b, name)->Some_0;
        assert(a[i].name == name);
    }
}

proof fn lemma_apply_upto_value(fams: Seq<FamilyView>, o: OpenWeatherMap, m: nat, k: int, location: Seq<char>, country: Seq<char>)
    requires
        registry_wf(fams),
        m <= 14,
        0 <= k < 14,
    ensures
        value_of(apply_upto(fams, o, m), family_names()[k], location, country) == (
            if location == o.name@ && country == o.sys.country@ && k < m && published(o, k) is Some
                && family_index(fams, family_names()[k]) is Some {
                published(o, k)
            } else {
                value_of(fams, family_names()[k], location, country)
            }),
    decreases m,
{
    if m > 0 {
        let before = apply_upto(fams, o, (m - 1) as nat);
        lemma_apply_upto_wf(fams, o, (m - 1) as nat);
        lemma_apply_upto_value(fams, o, (m - 1) as nat, k, location, country);
        lemma_family_names_distinct();
        if let Some(v) = published(o, m - 1) {
            lemma_value_after_set(before, family_names()[m - 1], o.name@, o.sys.country@, v, family_names()[k], location, country);
            lemma_same_families(before, fams, family_names()[m - 1]);
        }
    }
}

proof fn lemma_apply_upto_other_labels(fams: Seq<FamilyView>, o: OpenWeatherMap, m: nat, name: Seq<char>, location: Seq<char>, country: Seq<char>)
    requires
        registry_wf(fams),
        m <= 14,
        !(location == o.name@ && country == o.sys.country@),
    ensures
        value_of(apply_upto(fams, o, m), name, location, country) == value_of(fams, name, location, country),
    decreases m,
{
    if m > 0 {
        let before = apply_upto(fams, o, (m - 1) as nat);
        lemma_apply_upto_wf(fams, o, (m - 1) as nat);
        lemma_apply_upto_other_labels(fams, o, (m - 1) as nat, name, location, country);
        if let Some(v) = published(o, m - 1) {
            lemma_value_after_set(before, family_names()[m - 1], o.name@, o.sys.country@, v, name, location, country);
        }
    }
}

/// Once an observation is applied to a registry holding the standard
/// families, each family holds, for the observation's location and country,
/// the normalised sample the observation publishes there; where it publishes
/// none (an absent optional field), the family keeps what it held.
pub proof fn lemma_published_samples(fams: Seq<FamilyView>, o: OpenWeatherMap, k: int)
    requires
        registry_wf(fams),
        registers_standard_families(fams),
        0 <= k < 14,
    ensures
        value_of(apply_observation(fams, o), family_names()[k], o.name@, o.sys.country@) == match published(o, k) {
            Some(v) => Some(v),
            None => value_of(fams, family_names()[k], o.name@, o.sys.country@),
        },
{
    lemma_apply_upto_value(fams, o, 14, k, o.name@, o.sys.country@);
}

/// Applying an observation changes no sample of another label pair.
pub proof fn lemma_other_locations_untouched(fams: Seq<FamilyView>, o: OpenWeatherMap, name: Seq<char>, location: Seq<char>, country: Seq<char>)
    requires
        registry_wf(fams),
        !(location == o.name@ && country == o.sys.country@),
    ensures
        value_of(apply_observation(fams, o), name, location, country) == value_of(fams, name, location, country),
{
    lemma_apply_upto_other_labels(fams, o, 14, name, location, country);
}

/// An observation without a wind gust leaves the gust sample of its location
/// as it was; it is not set to zero.
pub proof fn lemma_missing_gust_untouched(fams: Seq<FamilyView>, o: OpenWeatherMap)
    requires
        registry_wf(fams),
        o.wind.gust is None,
    ensures
        value_of(apply_observation(fams, o), METRIC_WIND_GUST_NAME@, o.name@, o.sys.country@)
            == value_of(fams, METRIC_WIND_GUST_NAME@, o.name@, o.sys.country@),
{
    lemma_apply_upto_value(fams, o, 14, 7, o.name@, o.sys.country@);
}

/// An observation without rain leaves both rain samples of its location as
/// they were, and one without snow both snow samples.
pub proof fn lemma_missing_precipitation_untouched(fams: Seq<FamilyView>, o: OpenWeatherMap)
    requires
        registry_wf(fams),
    ensures
        o.rain is None ==> value_of(apply_observation(fams, o), METRIC_RAIN_1H_NAME@, o.name@, o.sys.country@)
            == value_of(fams, METRIC_RAIN_1H_NAME@, o.name@, o.sys.country@),
        o.rain is None ==> value_of(apply_observation(fams, o), METRIC_RAIN_3H_NAME@, o.name@, o.sys.country@)
            == value_of(fams, METRIC_RAIN_3H_NAME@, o.name@, o.sys.country@),
        o.snow is None ==> value_of(apply_observation(fams, o), METRIC_SNOW_1H_NAME@, o.name@, o.sys.country@)
            == value_of(fams, METRIC_SNOW_1H_NAME@, o.name@, o.sys.country@),
        o.snow is None ==> value_of(apply_observation(fams, o), METRIC_SNOW_3H_NAME@, o.name@, o.sys.country@)
            == value_of(fams, METRIC_SNOW_3H_NAME@, o.name@, o.sys.country@),
{
    lemma_apply_upto_value(fams, o, 14, 10, o.name@, o.sys.country@);
    lemma_apply_upto_value(fams, o, 14, 11, o.name@, o.sys.country@);
    lemma_apply_upto_value(fams, o, 14, 12, o.name@, o.sys.country@);
    lemma_apply_upto_value(fams, o, 14, 13, o.name@, o.sys.country@);
}

/// What the transport brought back for one location.
pub enum FetchOutcome {
    /// The service answered with this status and body.
    Response { status: u16, body: String },
    /// No answer: the connection failed or timed out.
    Failed,
}

/// Why a location was skipped in a scrape.
#[derive(Clone, Copy, Debug, PartialEq, Eq, Structural)]
pub enum LocationError {
    Transport,
    /// The service answered with a status outside the success range 200-299.
    Status(u16),
    Decode(DecodeError),
}

/// A success status: one in 200-299.
pub open spec fn is_success(status: u16) -> bool {
    200 <= status && status < 300
}

/// The reply is a success answer whose body decodes.
pub open spec fn reply_usable(reply: FetchOutcome) -> bool {
    match reply {
        FetchOutcome::Response { status, body } => is_success(status) && match document_of(body@) {
            Some(doc) => decodable(doc),
            None => false,
        },
        FetchOutcome::Failed => false,
    }
}

/// An observation that the usable reply decodes to.
pub open spec fn reply_observation(reply: FetchOutcome) -> OpenWeatherMap
    recommends
        reply_usable(reply),
{
    let doc = document_of(reply->body@)->Some_0;
    choose|o: OpenWeatherMap| observation_matches(doc, o)
}

/// The registry after one reply: a usable reply applies its observation, any
/// other leaves everything as it was.
pub open spec fn reply_effect(fams: Seq<FamilyView>, reply: FetchOutcome) -> Seq<FamilyView> {
    if reply_usable(reply) {
        apply_observation(fams, reply_observation(reply))
    } else {
        fams
    }
}

/// The registry after the replies, one location after the other.
pub open spec fn replies_effect(fams: Seq<FamilyView>, replies: Seq<FetchOutcome>) -> Seq<FamilyView>
    decreases replies.len(),
{
    if replies.len() == 0 {
        fams
    } else {
        reply_effect(replies_effect(fams, replies.drop_last()), replies.last())
    }
}

/// Two observations that agree on every value they publish change a registry alike.
proof fn lemma_apply_same_values(fams: Seq<FamilyView>, a: OpenWeatherMap, b: OpenWeatherMap, m: nat)
    requires
        a.name@ == b.name@,
        a.sys.country@ == b.sys.country@,
        forall|k: int| 0 <= k < 14 ==> published(a, k) == published(b, k),
        m <= 14,
    ensures
        apply_upto(fams, a, m) == apply_upto(fams, b, m),
    decreases m,
{
    if m > 0 {
        lemma_apply_same_values(fams, a, b, (m - 1) as nat);
        assert(published(a, m - 1) == published(b, m - 1));
    }
}

/// Any two observations that match one payload change a registry alike.
proof fn lemma_matching_observations_agree(fams: Seq<FamilyView>, doc: crate::json::Json, a: OpenWeatherMap, b: OpenWeatherMap)
    requires
        observation_matches(doc, a),
        observation_matches(doc, b),
    ensures
        apply_observation(fams, a) == apply_observation(fams, b),
{
    assert forall|k: int| 0 <= k < 14 implies published(a, k) == published(b, k) by {
        if k == 10 || k == 11 {
            if a.rain is Some {
                assert(string_view(a.rain->Some_0.one_h) == string_view(b.rain->Some_0.one_h));
                assert(string_view(a.rain->Some_0.three_h) == string_view(b.rain->Some_0.three_h));
            }
        } else if k == 12 || k == 13 {
            if a.snow is Some {
                assert(string_view(a.snow->Some_0.one_h) == string_view(b.snow->Some_0.one_h));
                assert(string_view(a.snow->Some_0.three_h) == string_view(b.snow->Some_0.three_h));
            }
        } else if k == 7 {
            assert(string_view(a.wind.gust) == string_view(b.wind.gust));
        }
    }
    lemma_apply_same_values(fams, a, b, 14);
}

pub open spec fn error_of_outcome<T>(r: Result<T, LocationError>) -> Option<LocationError> {
    match r {
        Ok(_) => None,
        Err(e) => Some(e),
    }
}

/// Why a reply is skipped: a failed fetch, a status other than success, a body
/// that is no JSON, or a payload field that does not decode (the error names
/// one such field).
pub open spec fn reply_error_fits(reply: FetchOutcome, e: Option<LocationError>) -> bool {
    match reply {
        FetchOutcome::Failed => e == Some(LocationError::Transport),
        FetchOutcome::Response { status, body } => if !is_success(status) {
            e == Some(LocationError::Status(status))
        } else if document_of(body@) is None {
            e == Some(LocationError::Decode(DecodeError::Syntax))
        } else {
            e matches Some(e) ==> e matches LocationError::Decode(d) && error_field(d) matches Some(f)
                && field_error(document_of(body@)->Some_0, f) == Some(d)
        },
    }
}

/// Handles the reply for one location: a success answer whose body decodes is
/// written into the registry and its observation returned; a failed fetch,
/// another status or a body that does not decode skips the location and
/// changes nothing.
pub fn process_reply(registry: &mut Registry, reply: &FetchOutcome) -> (r: Result<OpenWeatherMap, LocationError>)
    requires
        registry_wf(old(registry)@),
        kinds_follow_table(old(registry)@),
    ensures
        registry_wf(final(registry)@),
        kinds_follow_table(final(registry)@),
        r is Ok <==> reply_usable(*reply),
        final(registry)@ == reply_effect(old(registry)@, *reply),
        r matches Ok(o) ==> final(registry)@ == apply_observation(old(registry)@, o)
            && observation_matches(document_of(reply->body@)->Some_0, o),
        reply_error_fits(*reply, error_of_outcome(r)),
{
    match reply {
        FetchOutcome::Failed => Err(LocationError::Transport),
        FetchOutcome::Response { status, body } => {
            if *status < 200 || *status >= 300 {
                return Err(LocationError::Status(*status));
            }
            match decode_weather(body.as_str()) {
                Err(e) => Err(LocationError::Decode(e)),
                Ok(o) => {
                    update_location(registry, &o);
                    proof {
                        let doc = document_of(body@)->Some_0;
                        let c = choose|c: OpenWeatherMap| observation_matches(doc, c);
                        lemma_matching_observations_agree(old(registry)@, doc, o, c);
                    }
                    Ok(o)
                },
            }
        },
    }
}

/// One scrape's pass over the replies of the configured locations, in order.
/// Each location is handled on its own: a failed one is skipped and the
/// others are still written. Returns each location's outcome.
pub fn update_metrics(registry: &mut Registry, replies: &Vec<FetchOutcome>) -> (r: Vec<Result<(), LocationError>>)
    requires
        registry_wf(old(registry)@),
        kinds_follow_table(old(registry)@),
    ensures
        registry_wf(final(registry)@),
        kinds_follow_table(final(registry)@),
        final(registry)@ == replies_effect(old(registry)@, replies@),
        r@.len() == replies@.len(),
        forall|i: int| 0 <= i < r@.len() ==> (#[trigger] r@[i] is Ok <==> reply_usable(replies@[i])),
        forall|i: int| 0 <= i < r@.len() ==> reply_error_fits(replies@[i], error_of_outcome(#[trigger] r@[i])),
{
    let mut outcomes: Vec<Result<(), LocationError>> = Vec::new();
    let mut i: usize = 0;
    while i < replies.len()
        invariant
            i <= replies@.len(),
            registry_wf(registry@),
            kinds_follow_table(registry@),
            registry@ == replies_effect(old(registry)@, replies@.take(i as int)),
            outcomes@.len() == i,
            forall|j: int| 0 <= j < i ==> (#[trigger] outcomes@[j] is Ok <==> reply_usable(replies@[j])),
            forall|j: int| 0 <= j < i ==> reply_error_fits(replies@[j], error_of_outcome(#[trigger] outcomes@[j])),
        decreases replies@.len() - i,
    {
        assert(replies@.take(i + 1).drop_last() =~= replies@.take(i as int));
        let outcome = match process_reply(registry, &replies[i]) {
            Ok(_) => Ok(()),
            Err(e) => Err(e),
        };
        outcomes.push(outcome);
        i = i + 1;
    }
    assert(replies@.take(i as int) =~= replies@);
    outcomes
}

/// A location whose reply fails changes nothing: after a failed reply for one
/// location and a usable one for another, the registry is as if only the
/// second had been fetched; it then holds the second location's samples, and
/// the exposition text of the scrape has a line for each published one.
pub proof fn lemma_failed_location_skipped(fams: Seq<FamilyView>, a: FetchOutcome, b: FetchOutcome, k: int)
    requires
        registry_wf(fams),
        registers_standard_families(fams),
        !reply_usable(a),
        reply_usable(b),
        0 <= k < 14,
    ensures
        replies_effect(fams, seq![a, b]) == apply_observation(fams, reply_observation(b)),
        value_of(replies_effect(fams, seq![a, b]), family_names()[k], reply_observation(b).name@, reply_observation(b).sys.country@)
            == match published(reply_observation(b), k) {
                Some(v) => Some(v),
                None => value_of(fams, family_names()[k], reply_observation(b).name@, reply_observation(b).sys.country@),
            },
        published(reply_observation(b), k) matches Some(v) ==> contains_text(
            exposition(replies_effect(fams, seq![a, b])),
            series_line(
                family_names()[k],
                SeriesView { location: reply_observation(b).name@, country: reply_observation(b).sys.country@, value: v },
            ),
        ),
{
    let both = seq![a, b];
    assert(both.drop_last() =~= seq![a]);
    assert(seq![a].drop_last() =~= Seq::<FetchOutcome>::empty());
    assert(replies_effect(fams, Seq::<FetchOutcome>::empty()) == fams);
    assert(replies_effect(fams, seq![a]) == fams);
    assert(both.last() == b);
    assert(replies_effect(fams, both) == reply_effect(fams, b));
    lemma_published_samples(fams, reply_observation(b), k);
    if published(reply_observation(b), k) is Some {
        lemma_exposition_shows_sample(
            replies_effect(fams, both),
            family_names()[k],
            reply_observation(b).name@,
            reply_observation(b).sys.country@,
        );
    }
}

/// The request for one location: the location term, the unit system and the
/// credential as query parameters, passed as they are.
pub open spec fn request_url_text(location: Seq<char>, units: Seq<char>, api_key: Seq<char>) -> Seq<char> {
    OWM_URL@ + "?q="@ + location + "&units="@ + units + "&APPID="@ + api_key
}

pub fn request_url(location: &str, units: &str, api_key: &str) -> (r: String)
    ensures
        r@ == request_url_text(location@, units@, api_key@),
{
    let mut url = String::from_str(OWM_URL);
    url.append("?q=");
    url.append(location);
    url.append("&units=");
    url.append(units);
    url.append("&APPID=");
    url.append(api_key);
    url
}

/// One scrape: the replies of the configured locations are written into the
/// registry, then the whole registry is encoded. Failed locations never stop
/// the scrape; the text is always produced.
pub fn serve_metrics(registry: &mut Registry, replies: &Vec<FetchOutcome>) -> (r: String)
    requires
        registry_wf(old(registry)@),
        kinds_follow_table(old(registry)@),
    ensures
        registry_wf(final(registry)@),
        kinds_follow_table(final(registry)@),
        final(registry)@ == replies_effect(old(registry)@, replies@),
        r@ == exposition(final(registry)@),
{
    update_metrics(registry, replies);
    registry.encode()
}

} // verus!
