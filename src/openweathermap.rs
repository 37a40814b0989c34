//! The current-weather payload of the weather service, decoded from a JSON
//! document. Decimal measurements are held as the text of the parsed number
//! (see `Json::Number`). The core is the location name, the country code, the
//! current temperature, pressure, humidity, wind speed and direction and the
//! cloud coverage; every other field is optional: an absent (or `null`)
//! optional field decodes to `None`, never to zero.
use vstd::prelude::*;
use crate::json::{deref_json, document_of, member_of, parse_document, Json};

verus! {

/// The place of one field in the payload.
#[derive(Clone, Copy, Debug, PartialEq, Eq, Structural)]
pub enum Field {
    Name,
    Sys,
    SysCountry,
    Main,
    MainTemp,
    MainFeelsLike,
    MainTempMin,
    MainTempMax,
    MainPressure,
    MainHumidity,
    MainSeaLevel,
    MainGroundLevel,
    Wind,
    WindSpeed,
    WindDeg,
    WindGust,
    Clouds,
    CloudsAll,
    Rain,
    RainOneHour,
    RainThreeHours,
    Snow,
    SnowOneHour,
    SnowThreeHours,
    Coord,
    CoordLat,
    CoordLon,
    Weather,
    WeatherId,
    WeatherMain,
    WeatherDescription,
    WeatherIcon,
    Base,
    Cod,
    Dt,
    Id,
    Timezone,
    Visibility,
    SysId,
    SysType,
    SysSunrise,
    SysSunset,
}

/// The dotted path of a field in the payload.
pub open spec fn field_path(f: Field) -> Seq<char> {
    match f {
        Field::Name => "name"@,
        Field::Sys => "sys"@,
        Field::SysCountry => "sys.country"@,
        Field::Main => "main"@,
        Field::MainTemp => "main.temp"@,
        Field::MainFeelsLike => "main.feels_like"@,
        Field::MainTempMin => "main.temp_min"@,
        Field::MainTempMax => "main.temp_max"@,
        Field::MainPressure => "main.pressure"@,
        Field::MainHumidity => "main.humidity"@,
        Field::MainSeaLevel => "main.sea_level"@,
        Field::MainGroundLevel => "main.grnd_level"@,
        Field::Wind => "wind"@,
        Field::WindSpeed => "wind.speed"@,
        Field::WindDeg => "wind.deg"@,
        Field::WindGust => "wind.gust"@,
        Field::Clouds => "clouds"@,
        Field::CloudsAll => "clouds.all"@,
        Field::Rain => "rain"@,
        Field::RainOneHour => "rain.1h"@,
        Field::RainThreeHours => "rain.3h"@,
        Field::Snow => "snow"@,
        Field::SnowOneHour => "snow.1h"@,
        Field::SnowThreeHours => "snow.3h"@,
        Field::Coord => "coord"@,
        Field::CoordLat => "coord.lat"@,
        Field::CoordLon => "coord.lon"@,
        Field::Weather => "weather"@,
        Field::WeatherId => "weather.id"@,
        Field::WeatherMain => "weather.main"@,
        Field::WeatherDescription => "weather.description"@,
        Field::WeatherIcon => "weather.icon"@,
        Field::Base => "base"@,
        Field::Cod => "cod"@,
        Field::Dt => "dt"@,
        Field::Id => "id"@,
        Field::Timezone => "timezone"@,
        Field::Visibility => "visibility"@,
        Field::SysId => "sys.id"@,
        Field::SysType => "sys.type"@,
        Field::SysSunrise => "sys.sunrise"@,
        Field::SysSunset => "sys.sunset"@,
    }
}

impl Field {
    /// The dotted path of the field in the payload.
    pub fn path(&self) -> (r: &'static str)
        ensures
            r@ == field_path(*self),
    {
        match self {
            Field::Name => "name",
            Field::Sys => "sys",
            Field::SysCountry => "sys.country",
            Field::Main => "main",
            Field::MainTemp => "main.temp",
            Field::MainFeelsLike => "main.feels_like",
            Field::MainTempMin => "main.temp_min",
            Field::MainTempMax => "main.temp_max",
            Field::MainPressure => "main.pressure",
            Field::MainHumidity => "main.humidity",
            Field::MainSeaLevel => "main.sea_level",
            Field::MainGroundLevel => "main.grnd_level",
            Field::Wind => "wind",
            Field::WindSpeed => "wind.speed",
            Field::WindDeg => "wind.deg",
            Field::WindGust => "wind.gust",
            Field::Clouds => "clouds",
            Field::CloudsAll => "clouds.all",
            Field::Rain => "rain",
            Field::RainOneHour => "rain.1h",
            Field::RainThreeHours => "rain.3h",
            Field::Snow => "snow",
            Field::SnowOneHour => "snow.1h",
            Field::SnowThreeHours => "snow.3h",
            Field::Coord => "coord",
            Field::CoordLat => "coord.lat",
            Field::CoordLon => "coord.lon",
            Field::Weather => "weather",
            Field::WeatherId => "weather.id",
            Field::WeatherMain => "weather.main",
            Field::WeatherDescription => "weather.description",
            Field::WeatherIcon => "weather.icon",
            Field::Base => "base",
            Field::Cod => "cod",
            Field::Dt => "dt",
            Field::Id => "id",
            Field::Timezone => "timezone",
            Field::Visibility => "visibility",
            Field::SysId => "sys.id",
            Field::SysType => "sys.type",
            Field::SysSunrise => "sys.sunrise",
            Field::SysSunset => "sys.sunset",
        }
    }
}

/// Why a payload could not be decoded.
#[derive(Clone, Copy, Debug, PartialEq, Eq, Structural)]
pub enum DecodeError {
    /// The text is no JSON document.
    Syntax,
    /// A required field is absent.
    Missing(Field),
    /// A field holds a value of the wrong kind or out of range.
    Invalid(Field),
}

pub struct OpenWeatherMapSys {
    pub country: String,
    pub id: Option<i64>,
    pub owm_type: Option<i32>,
    /// Seconds since the Unix epoch.
    pub sunrise: Option<u64>,
    /// Seconds since the Unix epoch.
    pub sunset: Option<u64>,
}

pub struct OpenWeatherMapMain {
    pub temp: String,
    pub feels_like: Option<String>,
    pub temp_min: Option<String>,
    pub temp_max: Option<String>,
    /// Hectopascals.
    pub pressure: u32,
    /// Percent.
    pub humidity: u8,
    pub sea_level: Option<u32>,
    pub grnd_level: Option<u32>,
}

pub struct OpenWeatherMapWind {
    pub speed: String,
    /// Degrees.
    pub deg: u16,
    pub gust: Option<String>,
}

pub struct OpenWeatherMapClouds {
    /// Percent.
    pub all: u8,
}

/// Precipitation in millimetres over the last hour and the last three hours.
pub struct OpenWeatherMapRainOrSnow {
    pub one_h: Option<String>,
    pub three_h: Option<String>,
}

/// Where the location lies, in degrees.
pub struct OpenWeatherMapCoordinates {
    pub lat: String,
    pub lon: String,
}

/// One weather condition: its code, group, description and icon.
pub struct OpenWeatherMapWeather {
    pub id: u32,
    pub main: String,
    pub description: String,
    pub icon: String,
}

pub struct OpenWeatherMap {
    pub name: String,
    pub base: Option<String>,
    /// The service's internal status code.
    pub cod: Option<u8>,
    /// Time of the measurement, seconds since the Unix epoch.
    pub dt: Option<i64>,
    /// The service's identifier of the location.
    pub id: Option<u64>,
    /// Offset from UTC in seconds.
    pub timezone: Option<i32>,
    /// Metres.
    pub visibility: Option<i64>,
    pub coord: Option<OpenWeatherMapCoordinates>,
    /// The weather conditions; empty when the payload lists none.
    pub weather: Vec<OpenWeatherMapWeather>,
    pub sys: OpenWeatherMapSys,
    pub main: OpenWeatherMapMain,
    pub wind: OpenWeatherMapWind,
    pub clouds: OpenWeatherMapClouds,
    pub rain: Option<OpenWeatherMapRainOrSnow>,
    pub snow: Option<OpenWeatherMapRainOrSnow>,
}

pub open spec fn is_digit(c: char) -> bool {
    '0' <= c && c <= '9'
}

/// A non-empty run of decimal digits.
pub open spec fn all_digits(s: Seq<char>) -> bool {
    s.len() > 0 && forall|i: int| 0 <= i < s.len() ==> is_digit(#[trigger] s[i])
}

pub open spec fn digits_value(s: Seq<char>) -> nat
    decreases s.len(),
{
    if s.len() == 0 {
        0
    } else {
        digits_value(s.drop_last()) * 10 + (s.last() as u32 - '0' as u32) as nat
    }
}

/// A top-level member of the payload.
pub open spec fn top(doc: Json, key: Seq<char>) -> Option<Json> {
    member_of(doc, key)
}

/// The member `key` of the group `group` of the payload.
pub open spec fn member_in(doc: Json, group: Seq<char>, key: Seq<char>) -> Option<Json> {
    match member_of(doc, group) {
        Some(g) => member_of(g, key),
        None => None,
    }
}

pub open spec fn error_of<T>(r: Result<T, DecodeError>) -> Option<DecodeError> {
    match r {
        Ok(_) => None,
        Err(e) => Some(e),
    }
}

pub open spec fn text_at(v: Option<Json>, f: Field) -> Result<Seq<char>, DecodeError> {
    match v {
        None => Err(DecodeError::Missing(f)),
        Some(Json::Str(s)) => Ok(s@),
        Some(_) => Err(DecodeError::Invalid(f)),
    }
}

pub open spec fn reading_at(v: Option<Json>, f: Field) -> Result<Seq<char>, DecodeError> {
    match v {
        None => Err(DecodeError::Missing(f)),
        Some(Json::Number(t)) => Ok(t@),
        Some(_) => Err(DecodeError::Invalid(f)),
    }
}

pub open spec fn optional_reading_at(v: Option<Json>, f: Field) -> Result<Option<Seq<char>>, DecodeError> {
    match v {
        None => Ok(None),
        Some(Json::Null) => Ok(None),
        Some(Json::Number(t)) => Ok(Some(t@)),
        Some(_) => Err(DecodeError::Invalid(f)),
    }
}

/// An unsigned integer no larger than `max`, written as plain digits.
pub open spec fn uint_at(v: Option<Json>, f: Field, max: nat) -> Result<nat, DecodeError> {
    match v {
        None => Err(DecodeError::Missing(f)),
        Some(Json::Number(t)) => if all_digits(t@) && digits_value(t@) <= max {
            Ok(digits_value(t@))
        } else {
            Err(DecodeError::Invalid(f))
        },
        Some(_) => Err(DecodeError::Invalid(f)),
    }
}

pub open spec fn optional_uint_at(v: Option<Json>, f: Field, max: nat) -> Result<Option<nat>, DecodeError> {
    match v {
        None => Ok(None),
        Some(Json::Null) => Ok(None),
        _ => match uint_at(v, f, max) {
            Ok(n) => Ok(Some(n)),
            Err(e) => Err(e),
        },
    }
}

pub open spec fn optional_text_at(v: Option<Json>, f: Field) -> Result<Option<Seq<char>>, DecodeError> {
    match v {
        None => Ok(None),
        Some(Json::Null) => Ok(None),
        Some(Json::Str(s)) => Ok(Some(s@)),
        Some(_) => Err(DecodeError::Invalid(f)),
    }
}

/// The value of an integer written as plain digits, with a leading `-` when
/// it is negative, whose magnitude is no larger than `max`.
pub open spec fn signed_value(t: Seq<char>, max: nat) -> Option<int> {
    if t.len() > 0 && t[0] == '-' {
        if all_digits(t.drop_first()) && digits_value(t.drop_first()) <= max {
            Some(-(digits_value(t.drop_first()) as int))
        } else {
            None
        }
    } else if all_digits(t) && digits_value(t) <= max {
        Some(digits_value(t) as int)
    } else {
        None
    }
}

/// An optional signed integer whose magnitude is no larger than `max`.
pub open spec fn optional_int_at(v: Option<Json>, f: Field, max: nat) -> Result<Option<int>, DecodeError> {
    match v {
        None => Ok(None),
        Some(Json::Null) => Ok(None),
        Some(Json::Number(t)) => match signed_value(t@, max) {
            Some(n) => Ok(Some(n)),
            None => Err(DecodeError::Invalid(f)),
        },
        Some(_) => Err(DecodeError::Invalid(f)),
    }
}

pub open spec fn u8_opt(o: Option<u8>) -> Option<nat> {
    match o {
        Some(n) => Some(n as nat),
        None => None,
    }
}

pub open spec fn u64_opt(o: Option<u64>) -> Option<nat> {
    match o {
        Some(n) => Some(n as nat),
        None => None,
    }
}

pub open spec fn i32_opt(o: Option<i32>) -> Option<int> {
    match o {
        Some(n) => Some(n as int),
        None => None,
    }
}

pub open spec fn i64_opt(o: Option<i64>) -> Option<int> {
    match o {
        Some(n) => Some(n as int),
        None => None,
    }
}

/// A required group: an object.
pub open spec fn group_at(v: Option<Json>, f: Field) -> Result<Json, DecodeError> {
    match v {
        None => Err(DecodeError::Missing(f)),
        Some(Json::Object(m)) => Ok(Json::Object(m)),
        Some(_) => Err(DecodeError::Invalid(f)),
    }
}

/// An optional group: an object, or absent, or `null`.
pub open spec fn optional_group_at(v: Option<Json>, f: Field) -> Result<Option<Json>, DecodeError> {
    match v {
        None => Ok(None),
        Some(Json::Null) => Ok(None),
        Some(Json::Object(m)) => Ok(Some(Json::Object(m))),
        Some(_) => Err(DecodeError::Invalid(f)),
    }
}

pub open spec fn view_opt(o: Option<String>) -> Option<Seq<char>> {
    match o {
        Some(s) => Some(s@),
        None => None,
    }
}

pub open spec fn nat_opt(o: Option<u32>) -> Option<nat> {
    match o {
        Some(n) => Some(n as nat),
        None => None,
    }
}

/// What is wrong with one entry of the weather list: it must be an object
/// with a code, a group, a description and an icon.
pub open spec fn item_error(item: Json) -> Option<DecodeError> {
    if !(item matches Json::Object(_)) {
        Some(DecodeError::Invalid(Field::Weather))
    } else if uint_at(member_of(item, "id"@), Field::WeatherId, 0xffff_ffff) is Err {
        error_of(uint_at(member_of(item, "id"@), Field::WeatherId, 0xffff_ffff))
    } else if text_at(member_of(item, "main"@), Field::WeatherMain) is Err {
        error_of(text_at(member_of(item, "main"@), Field::WeatherMain))
    } else if text_at(member_of(item, "description"@), Field::WeatherDescription) is Err {
        error_of(text_at(member_of(item, "description"@), Field::WeatherDescription))
    } else {
        error_of(text_at(member_of(item, "icon"@), Field::WeatherIcon))
    }
}

/// The error of the first entry of the list that does not decode.
pub open spec fn items_error(items: Seq<Json>) -> Option<DecodeError>
    decreases items.len(),
{
    if items.len() == 0 {
        None
    } else {
        match items_error(items.drop_last()) {
            Some(e) => Some(e),
            None => item_error(items.last()),
        }
    }
}

/// The entries of the weather list; none when it is absent or `null`.
pub open spec fn weather_items(doc: Json) -> Seq<Json> {
    match top(doc, "weather"@) {
        Some(Json::Array(items)) => items@,
        _ => Seq::empty(),
    }
}

/// What is wrong with the weather list, if anything, when `f` names it or a
/// field of its entries.
pub open spec fn weather_error(doc: Json, f: Field) -> Option<DecodeError> {
    match top(doc, "weather"@) {
        None => None,
        Some(Json::Null) => None,
        Some(Json::Array(items)) => match items_error(items@) {
            Some(e) => if error_field(e) == Some(f) { Some(e) } else { None },
            None => None,
        },
        Some(_) => if f == Field::Weather { Some(DecodeError::Invalid(Field::Weather)) } else { None },
    }
}

/// What is wrong with the field `f` of the payload `doc`, if anything.
pub open spec fn field_error(doc: Json, f: Field) -> Option<DecodeError> {
    match f {
        Field::Name => error_of(text_at(top(doc, "name"@), f)),
        Field::Sys => error_of(group_at(top(doc, "sys"@), f)),
        Field::SysCountry => error_of(text_at(member_in(doc, "sys"@, "country"@), f)),
        Field::Main => error_of(group_at(top(doc, "main"@), f)),
        Field::MainTemp => error_of(reading_at(member_in(doc, "main"@, "temp"@), f)),
        Field::MainFeelsLike => error_of(optional_reading_at(member_in(doc, "main"@, "feels_like"@), f)),
        Field::MainTempMin => error_of(optional_reading_at(member_in(doc, "main"@, "temp_min"@), f)),
        Field::MainTempMax => error_of(optional_reading_at(member_in(doc, "main"@, "temp_max"@), f)),
        Field::MainPressure => error_of(uint_at(member_in(doc, "main"@, "pressure"@), f, 0xffff_ffff)),
        Field::MainHumidity => error_of(uint_at(member_in(doc, "main"@, "humidity"@), f, 0xff)),
        Field::MainSeaLevel => error_of(optional_uint_at(member_in(doc, "main"@, "sea_level"@), f, 0xffff_ffff)),
        Field::MainGroundLevel => error_of(optional_uint_at(member_in(doc, "main"@, "grnd_level"@), f, 0xffff_ffff)),
        Field::Wind => error_of(group_at(top(doc, "wind"@), f)),
        Field::WindSpeed => error_of(reading_at(member_in(doc, "wind"@, "speed"@), f)),
        Field::WindDeg => error_of(uint_at(member_in(doc, "wind"@, "deg"@), f, 0xffff)),
        Field::WindGust => error_of(optional_reading_at(member_in(doc, "wind"@, "gust"@), f)),
        Field::Clouds => error_of(group_at(top(doc, "clouds"@), f)),
        Field::CloudsAll => error_of(uint_at(member_in(doc, "clouds"@, "all"@), f, 0xff)),
        Field::Rain => error_of(optional_group_at(top(doc, "rain"@), f)),
        Field::RainOneHour => error_of(optional_reading_at(member_in(doc, "rain"@, "1h"@), f)),
        Field::RainThreeHours => error_of(optional_reading_at(member_in(doc, "rain"@, "3h"@), f)),
        Field::Snow => error_of(optional_group_at(top(doc, "snow"@), f)),
        Field::SnowOneHour => error_of(optional_reading_at(member_in(doc, "snow"@, "1h"@), f)),
        Field::SnowThreeHours => error_of(optional_reading_at(member_in(doc, "snow"@, "3h"@), f)),
        Field::Coord => error_of(optional_group_at(top(doc, "coord"@), f)),
        Field::CoordLat => if top(doc, "coord"@) matches Some(Json::Object(_)) {
            error_of(reading_at(member_in(doc, "coord"@, "lat"@), f))
        } else {
            None
        },
        Field::CoordLon => if top(doc, "coord"@) matches Some(Json::Object(_)) {
            error_of(reading_at(member_in(doc, "coord"@, "lon"@), f))
        } else {
            None
        },
        Field::Base => error_of(optional_text_at(top(doc, "base"@), Field::Base)),
        Field::Cod => error_of(optional_uint_at(top(doc, "cod"@), Field::Cod, 0xff)),
        Field::Dt => error_of(optional_int_at(top(doc, "dt"@), Field::Dt, 0x7fff_ffff_ffff_ffff)),
        Field::Id => error_of(optional_uint_at(top(doc, "id"@), Field::Id, 0xffff_ffff_ffff_ffff)),
        Field::Timezone => error_of(optional_int_at(top(doc, "timezone"@), Field::Timezone, 0x7fff_ffff)),
        Field::Visibility => error_of(optional_int_at(top(doc, "visibility"@), Field::Visibility, 0x7fff_ffff_ffff_ffff)),
        Field::SysId => error_of(optional_int_at(member_in(doc, "sys"@, "id"@), Field::SysId, 0x7fff_ffff_ffff_ffff)),
        Field::SysType => error_of(optional_int_at(member_in(doc, "sys"@, "type"@), Field::SysType, 0x7fff_ffff)),
        Field::SysSunrise => error_of(optional_uint_at(member_in(doc, "sys"@, "sunrise"@), Field::SysSunrise, 0xffff_ffff_ffff_ffff)),
        Field::SysSunset => error_of(optional_uint_at(member_in(doc, "sys"@, "sunset"@), Field::SysSunset, 0xffff_ffff_ffff_ffff)),
        Field::Weather => weather_error(doc, f),
        Field::WeatherId => weather_error(doc, f),
        Field::WeatherMain => weather_error(doc, f),
        Field::WeatherDescription => weather_error(doc, f),
        Field::WeatherIcon => weather_error(doc, f),
    }
}

/// The field a decode error names.
pub open spec fn error_field(e: DecodeError) -> Option<Field> {
    match e {
        DecodeError::Syntax => None,
        DecodeError::Missing(f) => Some(f),
        DecodeError::Invalid(f) => Some(f),
    }
}

fn read_text(v: Option<&Json>, f: Field) -> (r: Result<String, DecodeError>)
    ensures
        match r {
            Ok(s) => text_at(deref_json(v), f) == Ok::<Seq<char>, DecodeError>(s@),
            Err(e) => text_at(deref_json(v), f) == Err::<Seq<char>, DecodeError>(e),
        },
{
    match v {
        None => Err(DecodeError::Missing(f)),
        Some(Json::Str(s)) => Ok(s.clone()),
        Some(_) => Err(DecodeError::Invalid(f)),
    }
}

fn read_reading(v: Option<&Json>, f: Field) -> (r: Result<String, DecodeError>)
    ensures
        match r {
            Ok(s) => reading_at(deref_json(v), f) == Ok::<Seq<char>, DecodeError>(s@),
            Err(e) => reading_at(deref_json(v), f) == Err::<Seq<char>, DecodeError>(e),
        },
{
    match v {
        None => Err(DecodeError::Missing(f)),
        Some(Json::Number(t)) => Ok(t.clone()),
        Some(_) => Err(DecodeError::Invalid(f)),
    }
}

fn read_optional_reading(v: Option<&Json>, f: Field) -> (r: Result<Option<String>, DecodeError>)
    ensures
        match r {
            Ok(o) => optional_reading_at(deref_json(v), f) == Ok::<Option<Seq<char>>, DecodeError>(view_opt(o)),
            Err(e) => optional_reading_at(deref_json(v), f) == Err::<Option<Seq<char>>, DecodeError>(e),
        },
{
    match v {
        None => Ok(None),
        Some(Json::Null) => Ok(None),
        Some(Json::Number(t)) => Ok(Some(t.clone())),
        Some(_) => Err(DecodeError::Invalid(f)),
    }
}

/// The value of `t` when it is plain digits of a number no larger than `max`.
pub fn parse_uint(t: &str, max: u64) -> (r: Option<u64>)
    ensures
        r == (if all_digits(t@) && digits_value(t@) <= max {
            Some(digits_value(t@) as u64)
        } else {
            None::<u64>
        }),
{
    let n = t.unicode_len();
    if n == 0 {
        return None;
    }
    let mut acc: u64 = 0;
    let mut too_big = false;
    let mut i: usize = 0;
    while i < n
        invariant
            n == t@.len(),
            i <= n,
            acc <= max,
            forall|j: int| 0 <= j < i ==> is_digit(#[trigger] t@[j]),
            !too_big ==> acc == digits_value(t@.take(i as int)) && acc <= max,
            too_big ==> digits_value(t@.take(i as int)) > max,
        decreases n - i,
    {
        let c = t.get_char(i);
        if !('0' <= c && c <= '9') {
            assert(!is_digit(t@[i as int]));
            return None;
        }
        assert(t@.take(i + 1).drop_last() =~= t@.take(i as int));
        let d = (c as u32 - '0' as u32) as u64;
        if !too_big {
            if d > max || acc > (max - d) / 10 {
                assert(acc * 10 + d > max) by (nonlinear_arith)
                    requires
                        d > max || acc > (max - d) / 10,
                        d <= 9;
                too_big = true;
            } else {
                assert(acc * 10 + d <= max) by (nonlinear_arith)
                    requires
                        d <= max,
                        acc <= (max - d) / 10;
                acc = acc * 10 + d;
            }
        }
        i = i + 1;
    }
    assert(t@.take(n as int) =~= t@);
    if too_big {
        None
    } else {
        Some(acc)
    }
}

fn read_optional_text(v: Option<&Json>, f: Field) -> (r: Result<Option<String>, DecodeError>)
    ensures
        match r {
            Ok(o) => optional_text_at(deref_json(v), f) == Ok::<Option<Seq<char>>, DecodeError>(view_opt(o)),
            Err(e) => optional_text_at(deref_json(v), f) == Err::<Option<Seq<char>>, DecodeError>(e),
        },
{
    match v {
        None => Ok(None),
        Some(Json::Null) => Ok(None),
        Some(Json::Str(s)) => Ok(Some(s.clone())),
        Some(_) => Err(DecodeError::Invalid(f)),
    }
}

/// The value of `t` when it is an integer, plain digits with a leading `-`
/// when negative, of magnitude no larger than `max`.
pub fn parse_int(t: &str, max: u64) -> (r: Option<i64>)
    requires
        max <= 0x7fff_ffff_ffff_ffff,
    ensures
        match signed_value(t@, max as nat) {
            Some(n) => r == Some(n as i64),
            None => r is None,
        },
{
    let n = t.unicode_len();
    if n > 0 && t.get_char(0) == '-' {
        let rest = t.substring_char(1, n);
        assert(rest@ =~= t@.drop_first());
        match parse_uint(rest, max) {
            Some(v) => Some(-(v as i64)),
            None => None,
        }
    } else {
        match parse_uint(t, max) {
            Some(v) => Some(v as i64),
            None => None,
        }
    }
}

fn read_optional_int(v: Option<&Json>, f: Field, max: u64) -> (r: Result<Option<i64>, DecodeError>)
    requires
        max <= 0x7fff_ffff_ffff_ffff,
    ensures
        match r {
            Ok(o) => optional_int_at(deref_json(v), f, max as nat) == Ok::<Option<int>, DecodeError>(i64_opt(o)),
            Err(e) => optional_int_at(deref_json(v), f, max as nat) == Err::<Option<int>, DecodeError>(e),
        },
{
    match v {
        None => Ok(None),
        Some(Json::Null) => Ok(None),
        Some(Json::Number(t)) => match parse_int(t.as_str(), max) {
            Some(n) => Ok(Some(n)),
            None => Err(DecodeError::Invalid(f)),
        },
        Some(_) => Err(DecodeError::Invalid(f)),
    }
}

fn read_uint(v: Option<&Json>, f: Field, max: u64) -> (r: Result<u64, DecodeError>)
    ensures
        match r {
            Ok(n) => uint_at(deref_json(v), f, max as nat) == Ok::<nat, DecodeError>(n as nat),
            Err(e) => uint_at(deref_json(v), f, max as nat) == Err::<nat, DecodeError>(e),
        },
{
    match v {
        None => Err(DecodeError::Missing(f)),
        Some(Json::Number(t)) => match parse_uint(t.as_str(), max) {
            Some(n) => Ok(n),
            None => Err(DecodeError::Invalid(f)),
        },
        Some(_) => Err(DecodeError::Invalid(f)),
    }
}

fn read_optional_uint(v: Option<&Json>, f: Field, max: u64) -> (r: Result<Option<u64>, DecodeError>)
    ensures
        match r {
            Ok(Some(n)) => optional_uint_at(deref_json(v), f, max as nat) == Ok::<Option<nat>, DecodeError>(Some(n as nat)),
            Ok(None) => optional_uint_at(deref_json(v), f, max as nat) == Ok::<Option<nat>, DecodeError>(None),
            Err(e) => optional_uint_at(deref_json(v), f, max as nat) == Err::<Option<nat>, DecodeError>(e),
        },
{
    match v {
        None => Ok(None),
        Some(Json::Null) => Ok(None),
        _ => match read_uint(v, f, max) {
            Ok(n) => Ok(Some(n)),
            Err(e) => Err(e),
        },
    }
}

fn read_group<'a>(v: Option<&'a Json>, f: Field) -> (r: Result<&'a Json, DecodeError>)
    ensures
        match r {
            Ok(g) => group_at(deref_json(v), f) == Ok::<Json, DecodeError>(*g) && v == Some(g),
            Err(e) => group_at(deref_json(v), f) == Err::<Json, DecodeError>(e),
        },
{
    match v {
        None => Err(DecodeError::Missing(f)),
        Some(Json::Object(_)) => Ok(v.unwrap()),
        Some(_) => Err(DecodeError::Invalid(f)),
    }
}

fn read_optional_group<'a>(v: Option<&'a Json>, f: Field) -> (r: Result<Option<&'a Json>, DecodeError>)
    ensures
        match r {
            Ok(Some(g)) => optional_group_at(deref_json(v), f) == Ok::<Option<Json>, DecodeError>(Some(*g)) && v == Some(g),
            Ok(None) => optional_group_at(deref_json(v), f) == Ok::<Option<Json>, DecodeError>(None),
            Err(e) => optional_group_at(deref_json(v), f) == Err::<Option<Json>, DecodeError>(e),
        },
{
    match v {
        None => Ok(None),
        Some(Json::Null) => Ok(None),
        Some(Json::Object(_)) => Ok(v),
        Some(_) => Err(DecodeError::Invalid(f)),
    }
}

/// Every field of the payload decodes.
pub open spec fn decodable(doc: Json) -> bool {
    &&& field_error(doc, Field::Name) is None
    &&& field_error(doc, Field::Sys) is None
    &&& field_error(doc, Field::SysCountry) is None
    &&& field_error(doc, Field::Main) is None
    &&& field_error(doc, Field::MainTemp) is None
    &&& field_error(doc, Field::MainFeelsLike) is None
    &&& field_error(doc, Field::MainTempMin) is None
    &&& field_error(doc, Field::MainTempMax) is None
    &&& field_error(doc, Field::MainPressure) is None
    &&& field_error(doc, Field::MainHumidity) is None
    &&& field_error(doc, Field::MainSeaLevel) is None
    &&& field_error(doc, Field::MainGroundLevel) is None
    &&& field_error(doc, Field::Wind) is None
    &&& field_error(doc, Field::WindSpeed) is None
    &&& field_error(doc, Field::WindDeg) is None
    &&& field_error(doc, Field::WindGust) is None
    &&& field_error(doc, Field::Clouds) is None
    &&& field_error(doc, Field::CloudsAll) is None
    &&& field_error(doc, Field::Rain) is None
    &&& field_error(doc, Field::RainOneHour) is None
    &&& field_error(doc, Field::RainThreeHours) is None
    &&& field_error(doc, Field::Snow) is None
    &&& field_error(doc, Field::SnowOneHour) is None
    &&& field_error(doc, Field::SnowThreeHours) is None
    &&& field_error(doc, Field::Coord) is None
    &&& field_error(doc, Field::CoordLat) is None
    &&& field_error(doc, Field::CoordLon) is None
    &&& field_error(doc, Field::Base) is None
    &&& field_error(doc, Field::Cod) is None
    &&& field_error(doc, Field::Dt) is None
    &&& field_error(doc, Field::Id) is None
    &&& field_error(doc, Field::Timezone) is None
    &&& field_error(doc, Field::Visibility) is None
    &&& field_error(doc, Field::SysId) is None
    &&& field_error(doc, Field::SysType) is None
    &&& field_error(doc, Field::SysSunrise) is None
    &&& field_error(doc, Field::SysSunset) is None
    &&& field_error(doc, Field::Weather) is None
    &&& field_error(doc, Field::WeatherId) is None
    &&& field_error(doc, Field::WeatherMain) is None
    &&& field_error(doc, Field::WeatherDescription) is None
    &&& field_error(doc, Field::WeatherIcon) is None
}

/// The precipitation group `group` of the payload decodes to `o`.
pub open spec fn precipitation_matches(
    doc: Json,
    group: Seq<char>,
    one: Field,
    three: Field,
    o: Option<OpenWeatherMapRainOrSnow>,
) -> bool {
    match o {
        None => member_in(doc, group, "1h"@) is None && member_in(doc, group, "3h"@) is None,
        Some(p) => {
            &&& optional_reading_at(member_in(doc, group, "1h"@), one) == Ok::<Option<Seq<char>>, DecodeError>(view_opt(p.one_h))
            &&& optional_reading_at(member_in(doc, group, "3h"@), three) == Ok::<Option<Seq<char>>, DecodeError>(view_opt(p.three_h))
        },
    }
}

pub open spec fn is_weather_field(f: Field) -> bool {
    f == Field::Weather || f == Field::WeatherId || f == Field::WeatherMain || f == Field::WeatherDescription
        || f == Field::WeatherIcon
}

/// The weather condition `w` holds what the list entry `item` writes.
pub open spec fn item_matches(item: Json, w: OpenWeatherMapWeather) -> bool {
    &&& uint_at(member_of(item, "id"@), Field::WeatherId, 0xffff_ffff) == Ok::<nat, DecodeError>(w.id as nat)
    &&& text_at(member_of(item, "main"@), Field::WeatherMain) == Ok::<Seq<char>, DecodeError>(w.main@)
    &&& text_at(member_of(item, "description"@), Field::WeatherDescription) == Ok::<Seq<char>, DecodeError>(w.description@)
    &&& text_at(member_of(item, "icon"@), Field::WeatherIcon) == Ok::<Seq<char>, DecodeError>(w.icon@)
}

pub open spec fn weather_matches(items: Seq<Json>, ws: Seq<OpenWeatherMapWeather>) -> bool {
    &&& ws.len() == items.len()
    &&& forall|i: int| 0 <= i < items.len() ==> item_matches(#[trigger] items[i], ws[i])
}

/// Every field of `o` holds what the payload `doc` writes there.
pub open spec fn observation_matches(doc: Json, o: OpenWeatherMap) -> bool {
    &&& text_at(top(doc, "name"@), Field::Name) == Ok::<Seq<char>, DecodeError>(o.name@)
    &&& text_at(member_in(doc, "sys"@, "country"@), Field::SysCountry) == Ok::<Seq<char>, DecodeError>(o.sys.country@)
    &&& optional_text_at(top(doc, "base"@), Field::Base) == Ok::<Option<Seq<char>>, DecodeError>(view_opt(o.base))
    &&& optional_uint_at(top(doc, "cod"@), Field::Cod, 0xff) == Ok::<Option<nat>, DecodeError>(u8_opt(o.cod))
    &&& optional_int_at(top(doc, "dt"@), Field::Dt, 0x7fff_ffff_ffff_ffff) == Ok::<Option<int>, DecodeError>(i64_opt(o.dt))
    &&& optional_uint_at(top(doc, "id"@), Field::Id, 0xffff_ffff_ffff_ffff) == Ok::<Option<nat>, DecodeError>(u64_opt(o.id))
    &&& optional_int_at(top(doc, "timezone"@), Field::Timezone, 0x7fff_ffff) == Ok::<Option<int>, DecodeError>(i32_opt(o.timezone))
    &&& optional_int_at(top(doc, "visibility"@), Field::Visibility, 0x7fff_ffff_ffff_ffff) == Ok::<Option<int>, DecodeError>(i64_opt(o.visibility))
    &&& optional_int_at(member_in(doc, "sys"@, "id"@), Field::SysId, 0x7fff_ffff_ffff_ffff) == Ok::<Option<int>, DecodeError>(i64_opt(o.sys.id))
    &&& optional_int_at(member_in(doc, "sys"@, "type"@), Field::SysType, 0x7fff_ffff) == Ok::<Option<int>, DecodeError>(i32_opt(o.sys.owm_type))
    &&& optional_uint_at(member_in(doc, "sys"@, "sunrise"@), Field::SysSunrise, 0xffff_ffff_ffff_ffff) == Ok::<Option<nat>, DecodeError>(u64_opt(o.sys.sunrise))
    &&& optional_uint_at(member_in(doc, "sys"@, "sunset"@), Field::SysSunset, 0xffff_ffff_ffff_ffff) == Ok::<Option<nat>, DecodeError>(u64_opt(o.sys.sunset))
    &&& reading_at(member_in(doc, "main"@, "temp"@), Field::MainTemp) == Ok::<Seq<char>, DecodeError>(o.main.temp@)
    &&& optional_reading_at(member_in(doc, "main"@, "feels_like"@), Field::MainFeelsLike) == Ok::<Option<Seq<char>>, DecodeError>(view_opt(o.main.feels_like))
    &&& optional_reading_at(member_in(doc, "main"@, "temp_min"@), Field::MainTempMin) == Ok::<Option<Seq<char>>, DecodeError>(view_opt(o.main.temp_min))
    &&& optional_reading_at(member_in(doc, "main"@, "temp_max"@), Field::MainTempMax) == Ok::<Option<Seq<char>>, DecodeError>(view_opt(o.main.temp_max))
    &&& uint_at(member_in(doc, "main"@, "pressure"@), Field::MainPressure, 0xffff_ffff) == Ok::<nat, DecodeError>(o.main.pressure as nat)
    &&& uint_at(member_in(doc, "main"@, "humidity"@), Field::MainHumidity, 0xff) == Ok::<nat, DecodeError>(o.main.humidity as nat)
    &&& optional_uint_at(member_in(doc, "main"@, "sea_level"@), Field::MainSeaLevel, 0xffff_ffff) == Ok::<Option<nat>, DecodeError>(nat_opt(o.main.sea_level))
    &&& optional_uint_at(member_in(doc, "main"@, "grnd_level"@), Field::MainGroundLevel, 0xffff_ffff) == Ok::<Option<nat>, DecodeError>(nat_opt(o.main.grnd_level))
    &&& reading_at(member_in(doc, "wind"@, "speed"@), Field::WindSpeed) == Ok::<Seq<char>, DecodeError>(o.wind.speed@)
    &&& uint_at(member_in(doc, "wind"@, "deg"@), Field::WindDeg, 0xffff) == Ok::<nat, DecodeError>(o.wind.deg as nat)
    &&& optional_reading_at(member_in(doc, "wind"@, "gust"@), Field::WindGust) == Ok::<Option<Seq<char>>, DecodeError>(view_opt(o.wind.gust))
    &&& uint_at(member_in(doc, "clouds"@, "all"@), Field::CloudsAll, 0xff) == Ok::<nat, DecodeError>(o.clouds.all as nat)
    &&& (o.rain is Some <==> top(doc, "rain"@) matches Some(Json::Object(_)))
    &&& precipitation_matches(doc, "rain"@, Field::RainOneHour, Field::RainThreeHours, o.rain)
    &&& (o.snow is Some <==> top(doc, "snow"@) matches Some(Json::Object(_)))
    &&& precipitation_matches(doc, "snow"@, Field::SnowOneHour, Field::SnowThreeHours, o.snow)
    &&& weather_matches(weather_items(doc), o.weather@)
    &&& match o.coord {
        None => !(top(doc, "coord"@) matches Some(Json::Object(_))),
        Some(c) => {
            &&& top(doc, "coord"@) matches Some(Json::Object(_))
            &&& reading_at(member_in(doc, "coord"@, "lat"@), Field::CoordLat) == Ok::<Seq<char>, DecodeError>(c.lat@)
            &&& reading_at(member_in(doc, "coord"@, "lon"@), Field::CoordLon) == Ok::<Seq<char>, DecodeError>(c.lon@)
        },
    }
}

/// The outcome of decoding the payload `doc`: an observation holding what the
/// payload writes exactly when every field decodes, else an error that names a
/// field which does not.
pub open spec fn decode_outcome(doc: Json, r: Result<OpenWeatherMap, DecodeError>) -> bool {
    &&& (r is Ok <==> decodable(doc))
    &&& (r matches Ok(o) ==> observation_matches(doc, o))
    &&& (r matches Err(e) ==> error_field(e) matches Some(f) && field_error(doc, f) == Some(e))
}

fn decode_precipitation(doc: &Json, group: &str, f: Field, one: Field, three: Field) -> (r: Result<Option<OpenWeatherMapRainOrSnow>, DecodeError>)
    ensures
        match r {
            Ok(o) => {
                &&& optional_group_at(top(*doc, group@), f) is Ok
                &&& optional_reading_at(member_in(*doc, group@, "1h"@), one) is Ok
                &&& optional_reading_at(member_in(*doc, group@, "3h"@), three) is Ok
                &&& (o is Some <==> top(*doc, group@) matches Some(Json::Object(_)))
                &&& precipitation_matches(*doc, group@, one, three, o)
            },
            Err(e) => {
                ||| optional_group_at(top(*doc, group@), f) == Err::<Option<Json>, DecodeError>(e)
                ||| optional_reading_at(member_in(*doc, group@, "1h"@), one) == Err::<Option<Seq<char>>, DecodeError>(e)
                ||| optional_reading_at(member_in(*doc, group@, "3h"@), three) == Err::<Option<Seq<char>>, DecodeError>(e)
            },
        },
{
    match read_optional_group(doc.member(group), f)? {
        None => Ok(None),
        Some(g) => {
            let one_h = read_optional_reading(g.member("1h"), one)?;
            let three_h = read_optional_reading(g.member("3h"), three)?;
            Ok(Some(OpenWeatherMapRainOrSnow { one_h, three_h }))
        },
    }
}

fn decode_weather_item(item: &Json) -> (r: Result<OpenWeatherMapWeather, DecodeError>)
    ensures
        match r {
            Ok(w) => item_error(*item) is None && item_matches(*item, w),
            Err(e) => item_error(*item) == Some(e) && (error_field(e) matches Some(f) && is_weather_field(f)),
        },
{
    match item {
        Json::Object(_) => {},
        _ => {
            return Err(DecodeError::Invalid(Field::Weather));
        },
    }
    let id = read_uint(item.member("id"), Field::WeatherId, 0xffff_ffff)?;
    let main = read_text(item.member("main"), Field::WeatherMain)?;
    let description = read_text(item.member("description"), Field::WeatherDescription)?;
    let icon = read_text(item.member("icon"), Field::WeatherIcon)?;
    Ok(OpenWeatherMapWeather { id: id as u32, main, description, icon })
}

fn decode_weather_list(doc: &Json) -> (r: Result<Vec<OpenWeatherMapWeather>, DecodeError>)
    ensures
        match r {
            Ok(ws) => {
                &&& weather_error(*doc, Field::Weather) is None
                &&& weather_error(*doc, Field::WeatherId) is None
                &&& weather_error(*doc, Field::WeatherMain) is None
                &&& weather_error(*doc, Field::WeatherDescription) is None
                &&& weather_error(*doc, Field::WeatherIcon) is None
                &&& weather_matches(weather_items(*doc), ws@)
            },
            Err(e) => error_field(e) matches Some(f) && is_weather_field(f) && weather_error(*doc, f) == Some(e),
        },
{
    let mut ws: Vec<OpenWeatherMapWeather> = Vec::new();
    match doc.member("weather") {
        None => Ok(ws),
        Some(Json::Null) => Ok(ws),
        Some(Json::Array(items)) => {
            let mut i: usize = 0;
            while i < items.len()
                invariant
                    top(*doc, "weather"@) == Some(Json::Array(*items)),
                    i <= items@.len(),
                    items_error(items@.take(i as int)) is None,
                    ws@.len() == i,
                    forall|j: int| 0 <= j < i ==> item_matches(#[trigger] items@[j], ws@[j]),
                decreases items@.len() - i,
            {
                assert(items@.take(i + 1).drop_last() =~= items@.take(i as int));
                let w = decode_weather_item(&items[i]);
                match w {
                    Ok(w) => {
                        ws.push(w);
                    },
                    Err(e) => {
                        assert(items_error(items@.take(i + 1)) == Some(e));
                        assert(items_error(items@) == Some(e)) by {
                            lemma_items_error_prefix(items@, i as int + 1);
                        }
                        return Err(e);
                    },
                }
                i = i + 1;
            }
            assert(items@.take(i as int) =~= items@);
            Ok(ws)
        },
        Some(_) => Err(DecodeError::Invalid(Field::Weather)),
    }
}

/// An error in the first entries of a list is the list's error.
proof fn lemma_items_error_prefix(items: Seq<Json>, n: int)
    requires
        0 <= n <= items.len(),
        items_error(items.take(n)) is Some,
    ensures
        items_error(items) == items_error(items.take(n)),
    decreases items.len() - n,
{
    if n < items.len() {
        assert(items.take(n + 1).drop_last() =~= items.take(n));
        lemma_items_error_prefix(items, n + 1);
    } else {
        assert(items.take(n) =~= items);
    }
}

fn decode_coordinates(doc: &Json) -> (r: Result<Option<OpenWeatherMapCoordinates>, DecodeError>)
    ensures
        match r {
            Ok(o) => {
                &&& field_error(*doc, Field::Coord) is None
                &&& field_error(*doc, Field::CoordLat) is None
                &&& field_error(*doc, Field::CoordLon) is None
                &&& match o {
                    None => !(top(*doc, "coord"@) matches Some(Json::Object(_))),
                    Some(c) => {
                        &&& top(*doc, "coord"@) matches Some(Json::Object(_))
                        &&& reading_at(member_in(*doc, "coord"@, "lat"@), Field::CoordLat) == Ok::<Seq<char>, DecodeError>(c.lat@)
                        &&& reading_at(member_in(*doc, "coord"@, "lon"@), Field::CoordLon) == Ok::<Seq<char>, DecodeError>(c.lon@)
                    },
                }
            },
            Err(e) => {
                ||| field_error(*doc, Field::Coord) == Some(e) && e == DecodeError::Invalid(Field::Coord)
                ||| field_error(*doc, Field::CoordLat) == Some(e) && error_field(e) == Some(Field::CoordLat)
                ||| field_error(*doc, Field::CoordLon) == Some(e) && error_field(e) == Some(Field::CoordLon)
            },
        },
{
    match read_optional_group(doc.member("coord"), Field::Coord)? {
        None => Ok(None),
        Some(g) => {
            let lat = read_reading(g.member("lat"), Field::CoordLat)?;
            let lon = read_reading(g.member("lon"), Field::CoordLon)?;
            Ok(Some(OpenWeatherMapCoordinates { lat, lon }))
        },
    }
}

/// Decodes the payload `doc` into an observation.
#[verifier::rlimit(60)]
pub fn decode_observation(doc: &Json) -> (r: Result<OpenWeatherMap, DecodeError>)
    ensures
        decode_outcome(*doc, r),
{
    let name = read_text(doc.member("name"), Field::Name)?;
    let sys = read_group(doc.member("sys"), Field::Sys)?;
    let country = read_text(sys.member("country"), Field::SysCountry)?;
    let base = read_optional_text(doc.member("base"), Field::Base)?;
    let cod = read_optional_uint(doc.member("cod"), Field::Cod, 0xff)?;
    let dt = read_optional_int(doc.member("dt"), Field::Dt, 0x7fff_ffff_ffff_ffff)?;
    let id = read_optional_uint(doc.member("id"), Field::Id, 0xffff_ffff_ffff_ffff)?;
    let timezone = read_optional_int(doc.member("timezone"), Field::Timezone, 0x7fff_ffff)?;
    let visibility = read_optional_int(doc.member("visibility"), Field::Visibility, 0x7fff_ffff_ffff_ffff)?;
    let sys_id = read_optional_int(sys.member("id"), Field::SysId, 0x7fff_ffff_ffff_ffff)?;
    let sys_owm_type = read_optional_int(sys.member("type"), Field::SysType, 0x7fff_ffff)?;
    let sys_sunrise = read_optional_uint(sys.member("sunrise"), Field::SysSunrise, 0xffff_ffff_ffff_ffff)?;
    let sys_sunset = read_optional_uint(sys.member("sunset"), Field::SysSunset, 0xffff_ffff_ffff_ffff)?;
    let main = read_group(doc.member("main"), Field::Main)?;
    let temp = read_reading(main.member("temp"), Field::MainTemp)?;
    let feels_like = read_optional_reading(main.member("feels_like"), Field::MainFeelsLike)?;
    let temp_min = read_optional_reading(main.member("temp_min"), Field::MainTempMin)?;
    let temp_max = read_optional_reading(main.member("temp_max"), Field::MainTempMax)?;
    let pressure = read_uint(main.member("pressure"), Field::MainPressure, 0xffff_ffff)?;
    let humidity = read_uint(main.member("humidity"), Field::MainHumidity, 0xff)?;
    let sea_level = read_optional_uint(main.member("sea_level"), Field::MainSeaLevel, 0xffff_ffff)?;
    let grnd_level = read_optional_uint(main.member("grnd_level"), Field::MainGroundLevel, 0xffff_ffff)?;
    let wind = read_group(doc.member("wind"), Field::Wind)?;
    let speed = read_reading(wind.member("speed"), Field::WindSpeed)?;
    let deg = read_uint(wind.member("deg"), Field::WindDeg, 0xffff)?;
    let gust = read_optional_reading(wind.member("gust"), Field::WindGust)?;
    let clouds = read_group(doc.member("clouds"), Field::Clouds)?;
    let all = read_uint(clouds.member("all"), Field::CloudsAll, 0xff)?;
    let rain = decode_precipitation(doc, "rain", Field::Rain, Field::RainOneHour, Field::RainThreeHours)?;
    let snow = decode_precipitation(doc, "snow", Field::Snow, Field::SnowOneHour, Field::SnowThreeHours)?;
    let coord = decode_coordinates(doc)?;
    let weather = decode_weather_list(doc)?;
    Ok(OpenWeatherMap {
        name,
        coord,
        weather,
        sys: OpenWeatherMapSys {
            country,
            id: sys_id,
            owm_type: match sys_owm_type {
                Some(v) => Some(v as i32),
                None => None,
            },
            sunrise: sys_sunrise,
            sunset: sys_sunset,
        },
        base,
        cod: match cod {
            Some(v) => Some(v as u8),
            None => None,
        },
        dt,
        id,
        timezone: match timezone {
            Some(v) => Some(v as i32),
            None => None,
        },
        visibility,
        main: OpenWeatherMapMain {
            temp,
            feels_like,
            temp_min,
            temp_max,
            pressure: pressure as u32,
            humidity: humidity as u8,
            sea_level: match sea_level {
                Some(v) => Some(v as u32),
                None => None,
            },
            grnd_level: match grnd_level {
                Some(v) => Some(v as u32),
                None => None,
            },
        },
        wind: OpenWeatherMapWind { speed, deg: deg as u16, gust },
        clouds: OpenWeatherMapClouds { all: all as u8 },
        rain,
        snow,
    })
}

/// Reads the payload text as JSON, then decodes it. Text that is no JSON
/// document fails with `Syntax`.
pub fn decode_weather(text: &str) -> (r: Result<OpenWeatherMap, DecodeError>)
    ensures
        match document_of(text@) {
            None => r == Err::<OpenWeatherMap, DecodeError>(DecodeError::Syntax),
            Some(doc) => decode_outcome(doc, r),
        },
{
    match parse_document(text) {
        None => Err(DecodeError::Syntax),
        Some(doc) => decode_observation(&doc),
    }
}

} // verus!
