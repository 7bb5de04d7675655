//! The three lookups (where a city is, the weather there now, and the next
//! forecast points), the request addresses they use, and what they read from
//! the provider's answers.
use vstd::prelude::*;
use crate::datetime::{
    LocalDateTime, local_datetime, lemma_four_digit_year, SECONDS_PER_DAY, EARLIEST_FOUR_DIGIT_SECS, LATEST_FOUR_DIGIT_SECS,
};
use crate::json::{Json, member, element, elements, number_text, integer_value, string_text, found};

verus! {

/// Why a lookup could not be completed.
#[derive(Clone, Copy, Debug, PartialEq, Eq, Structural)]
pub enum WeatherError {
    /// No API key was given.
    MissingCredential,
    /// The geocoding answer lists no place.
    NoLocation,
    /// A field that the lookup reads is absent or has another type.
    MissingField,
    /// A forecast time has no local date with a four-digit year.
    TimestampOutOfRange,
}

/// Where a place is, each coordinate as the text of the number the provider gave.
pub struct Coordinates {
    pub latitude: String,
    pub longitude: String,
}

/// The weather now: temperatures as text, and the provider's description.
pub struct CurrentConditions {
    pub current_temperature: String,
    pub max_temperature: String,
    pub min_temperature: String,
    pub weather_description: String,
}

/// One forecast entry as the provider gave it, its time in seconds since the epoch.
pub struct ForecastReading {
    pub timestamp: i64,
    pub current_temperature: String,
    pub max_temperature: String,
    pub min_temperature: String,
    pub weather_description: String,
}

/// One forecast point, its time in local time.
pub struct FormattedResult {
    pub datetime: LocalDateTime,
    /// How far `datetime` is ahead of UTC, in seconds.
    pub utc_offset: i32,
    pub current_temperature: String,
    pub max_temperature: String,
    pub min_temperature: String,
    pub weather_description: String,
}

/// Temperatures, current, highest and lowest, and a description, as text.
pub type WeatherText = (Seq<char>, Seq<char>, Seq<char>, Seq<char>);

/// How a temperature is shown: the number's text, without a trailing `.0`.
pub open spec fn shown_number(t: Seq<char>) -> Seq<char> {
    if t.len() >= 2 && t[t.len() - 2] == '.' && t[t.len() - 1] == '0' {
        t.take(t.len() - 2)
    } else {
        t
    }
}

/// The temperature `key` under `main` of `v`, as shown.
pub open spec fn temperature_of(v: Json, key: Seq<char>) -> Option<Seq<char>> {
    match number_text(member(member(Some(v), "main"@), key)) {
        Some(t) => Some(shown_number(t)),
        None => None,
    }
}

/// The description of the first `weather` item of `v`.
pub open spec fn description_of(v: Json) -> Option<Seq<char>> {
    string_text(member(element(member(Some(v), "weather"@), 0), "description"@))
}

/// The four weather fields of a current-weather answer or of a forecast entry.
pub open spec fn weather_text_of(v: Json) -> Option<WeatherText> {
    match (
        temperature_of(v, "temp"@),
        temperature_of(v, "temp_max"@),
        temperature_of(v, "temp_min"@),
        description_of(v),
    ) {
        (Some(t), Some(hi), Some(lo), Some(d)) => Some((t, hi, lo, d)),
        _ => None,
    }
}

/// The latitude and longitude texts of the first place of a geocoding answer.
pub open spec fn location_of(doc: Json) -> Option<(Seq<char>, Seq<char>)> {
    let first = element(Some(doc), 0);
    match (number_text(member(first, "lat"@)), number_text(member(first, "lon"@))) {
        (Some(lat), Some(lon)) => Some((lat, lon)),
        _ => None,
    }
}

/// The time and weather fields of one forecast entry.
pub open spec fn reading_of(v: Json) -> Option<(i64, WeatherText)> {
    match (integer_value(member(Some(v), "dt"@)), weather_text_of(v)) {
        (Some(t), Some(w)) => Some((t, w)),
        _ => None,
    }
}

/// The entries of the `list` of a forecast answer.
pub open spec fn forecast_entries(doc: Json) -> Option<Seq<Json>> {
    elements(member(Some(doc), "list"@))
}

/// Every entry of the forecast list has its time in years 0 to 9999, whatever
/// the time zone.
pub open spec fn forecast_times_in_range(doc: Json) -> bool {
    forall|i: int|
        #![trigger reading_of(forecast_entries(doc)->0[i])]
        0 <= i < forecast_entries(doc)->0.len() ==> EARLIEST_FOUR_DIGIT_SECS <= (reading_of(
            forecast_entries(doc)->0[i],
        )->0).0 <= LATEST_FOUR_DIGIT_SECS
}

/// Every entry of the forecast list can be read.
pub open spec fn forecast_readable(doc: Json) -> bool {
    match forecast_entries(doc) {
        Some(entries) => forall|i: int| 0 <= i < entries.len() ==> (#[trigger] reading_of(entries[i])) is Some,
        None => false,
    }
}

impl CurrentConditions {
    pub open spec fn text(self) -> WeatherText {
        (self.current_temperature@, self.max_temperature@, self.min_temperature@, self.weather_description@)
    }
}

impl ForecastReading {
    pub open spec fn reading(self) -> (i64, WeatherText) {
        (
            self.timestamp,
            (self.current_temperature@, self.max_temperature@, self.min_temperature@, self.weather_description@),
        )
    }
}

impl FormattedResult {
    pub open spec fn text(self) -> WeatherText {
        (self.current_temperature@, self.max_temperature@, self.min_temperature@, self.weather_description@)
    }
}

/// The text of a temperature as it is shown.
pub fn show_number(t: &str) -> (r: String)
    ensures
        r@ == shown_number(t@),
{
    let n = t.unicode_len();
    if n >= 2 && t.get_char(n - 2) == '.' && t.get_char(n - 1) == '0' {
        let head = t.substring_char(0, n - 2);
        assert(head@ =~= t@.take(n - 2));
        String::from_str(head)
    } else {
        String::from_str(t)
    }
}

/// The text held by an optional string.
pub open spec fn text_of(r: Option<String>) -> Option<Seq<char>> {
    match r {
        Some(s) => Some(s@),
        None => None,
    }
}

fn member_of<'a>(v: Option<&'a Json>, key: &str) -> (r: Option<&'a Json>)
    ensures
        found(r) == member(found(v), key@),
{
    match v {
        Some(x) => x.get(key),
        None => None,
    }
}

fn element_of<'a>(v: Option<&'a Json>, i: usize) -> (r: Option<&'a Json>)
    ensures
        found(r) == element(found(v), i as int),
{
    match v {
        Some(x) => x.at(i),
        None => None,
    }
}

fn number_of(v: Option<&Json>) -> (r: Option<String>)
    ensures
        text_of(r) == number_text(found(v)),
{
    match v {
        Some(Json::Number(n)) => Some(n.text.clone()),
        _ => None,
    }
}

fn string_of(v: Option<&Json>) -> (r: Option<String>)
    ensures
        text_of(r) == string_text(found(v)),
{
    match v {
        Some(Json::Str(t)) => Some(t.clone()),
        _ => None,
    }
}

fn integer_of(v: Option<&Json>) -> (r: Option<i64>)
    ensures
        r == integer_value(found(v)),
{
    match v {
        Some(Json::Number(n)) => n.integer,
        _ => None,
    }
}

fn temperature(v: &Json, key: &str) -> (r: Option<String>)
    ensures
        text_of(r) == temperature_of(*v, key@),
{
    match number_of(member_of(v.get("main"), key)) {
        Some(t) => Some(show_number(t.as_str())),
        None => None,
    }
}

fn description(v: &Json) -> (r: Option<String>)
    ensures
        text_of(r) == description_of(*v),
{
    string_of(member_of(element_of(v.get("weather"), 0), "description"))
}

/// Reads the four weather fields of a current-weather answer or a forecast entry.
pub fn read_conditions(v: &Json) -> (r: Option<CurrentConditions>)
    ensures
        match r {
            Some(c) => weather_text_of(*v) == Some(c.text()),
            None => weather_text_of(*v) is None,
        },
{
    let t = temperature(v, "temp");
    let hi = temperature(v, "temp_max");
    let lo = temperature(v, "temp_min");
    let d = description(v);
    match (t, hi, lo, d) {
        (Some(t), Some(hi), Some(lo), Some(d)) => Some(
            CurrentConditions {
                current_temperature: t,
                max_temperature: hi,
                min_temperature: lo,
                weather_description: d,
            },
        ),
        _ => None,
    }
}

/// The coordinates of the first place in a geocoding answer.
pub fn get_city_geo_location(doc: &Json) -> (r: Result<Coordinates, WeatherError>)
    ensures
        element(Some(*doc), 0) is None ==> r == Err::<Coordinates, WeatherError>(WeatherError::NoLocation),
        element(Some(*doc), 0) is Some ==> match r {
            Ok(c) => location_of(*doc) == Some((c.latitude@, c.longitude@)),
            Err(e) => location_of(*doc) is None && e == WeatherError::MissingField,
        },
{
    let first = doc.at(0);
    if first.is_none() {
        return Err(WeatherError::NoLocation);
    }
    match (number_of(member_of(first, "lat")), number_of(member_of(first, "lon"))) {
        (Some(lat), Some(lon)) => Ok(Coordinates { latitude: lat, longitude: lon }),
        _ => Err(WeatherError::MissingField),
    }
}

/// The current temperatures and description in a current-weather answer.
pub fn get_current_weather(doc: &Json) -> (r: Result<CurrentConditions, WeatherError>)
    ensures
        match r {
            Ok(c) => weather_text_of(*doc) == Some(c.text()),
            Err(e) => weather_text_of(*doc) is None && e == WeatherError::MissingField,
        },
{
    match read_conditions(doc) {
        Some(c) => Ok(c),
        None => Err(WeatherError::MissingField),
    }
}

/// Reads every entry of the `list` of a forecast answer, in order.
pub fn forecast_readings(doc: &Json) -> (r: Result<Vec<ForecastReading>, WeatherError>)
    ensures
        match r {
            Ok(v) => forecast_readable(*doc) && v@.len() == forecast_entries(*doc)->0.len() && forall|i: int|
                0 <= i < v@.len() ==> Some(#[trigger] v@[i].reading()) == reading_of(
                    forecast_entries(*doc)->0[i],
                ),
            Err(e) => !forecast_readable(*doc) && e == WeatherError::MissingField,
        },
{
    let list = doc.get("list");
    let entries = match list {
        Some(Json::Array(items)) => items,
        _ => {
            return Err(WeatherError::MissingField);
        },
    };
    let ghost es = forecast_entries(*doc)->0;
    assert(es == entries@);
    let mut out: Vec<ForecastReading> = Vec::new();
    let mut i: usize = 0;
    while i < entries.len()
        invariant
            es == entries@,
            forecast_entries(*doc) == Some(es),
            0 <= i <= es.len(),
            out@.len() == i,
            forall|j: int| 0 <= j < i ==> (#[trigger] reading_of(es[j])) is Some,
            forall|j: int| 0 <= j < i ==> Some(#[trigger] out@[j].reading()) == reading_of(es[j]),
        decreases es.len() - i,
    {
        let e = &entries[i];
        let t = integer_of(e.get("dt"));
        let w = read_conditions(e);
        match (t, w) {
            (Some(t), Some(w)) => {
                out.push(
                    ForecastReading {
                        timestamp: t,
                        current_temperature: w.current_temperature,
                        max_temperature: w.max_temperature,
                        min_temperature: w.min_temperature,
                        weather_description: w.weather_description,
                    },
                );
            },
            _ => {
                assert(reading_of(es[i as int]) is None);
                return Err(WeatherError::MissingField);
            },
        }
        i = i + 1;
    }
    Ok(out)
}

/// Joins each forecast reading with the local time of its timestamp. Every
/// time must be a real date and time with a four-digit year.
pub fn forecast_points(readings: &Vec<ForecastReading>, times: &Vec<Option<(LocalDateTime, i32)>>) -> (r: Result<
    Vec<FormattedResult>,
    WeatherError,
>)
    requires
        readings@.len() == times@.len(),
    ensures
        match r {
            Ok(v) => v@.len() == readings@.len() && forall|i: int|
                0 <= i < v@.len() ==> {
                    &&& times@[i] == Some(((#[trigger] v@[i]).datetime, v@[i].utc_offset))
                    &&& v@[i].datetime.wf()
                    &&& v@[i].datetime.has_four_digit_year()
                    &&& v@[i].text() == readings@[i].reading().1
                },
            Err(e) => e == WeatherError::TimestampOutOfRange && exists|i: int|
                0 <= i < times@.len() && !(#[trigger] times@[i] matches Some((d, _)) && d.wf()
                    && d.has_four_digit_year()),
        },
{
    let mut out: Vec<FormattedResult> = Vec::new();
    let mut i: usize = 0;
    while i < readings.len()
        invariant
            readings@.len() == times@.len(),
            0 <= i <= readings@.len(),
            out@.len() == i,
            forall|j: int|
                0 <= j < i ==> {
                    &&& times@[j] == Some(((#[trigger] out@[j]).datetime, out@[j].utc_offset))
                    &&& out@[j].datetime.wf()
                    &&& out@[j].datetime.has_four_digit_year()
                    &&& out@[j].text() == readings@[j].reading().1
                },
        decreases readings@.len() - i,
    {
        match times[i] {
            Some((d, offset)) => {
                if !d.is_valid() {
                    return Err(WeatherError::TimestampOutOfRange);
                }
                let x = &readings[i];
                out.push(
                    FormattedResult {
                        datetime: d,
                        utc_offset: offset,
                        current_temperature: x.current_temperature.clone(),
                        max_temperature: x.max_temperature.clone(),
                        min_temperature: x.min_temperature.clone(),
                        weather_description: x.weather_description.clone(),
                    },
                );
            },
            None => {
                return Err(WeatherError::TimestampOutOfRange);
            },
        }
        i = i + 1;
    }
    Ok(out)
}

/// The forecast points of a forecast answer, in the order of its `list`, each
/// time in local time. A readable list whose times all fall in years 0 to
/// 9999 always gives one point per entry.
pub fn get_timestamps_weather_forecasting(doc: &Json) -> (r: Result<Vec<FormattedResult>, WeatherError>)
    ensures
        forecast_readable(*doc) && forecast_times_in_range(*doc) ==> r is Ok,
        match r {
            Ok(v) => forecast_readable(*doc) && v@.len() == forecast_entries(*doc)->0.len() && forall|i: int|
                0 <= i < v@.len() ==> {
                    &&& (reading_of(forecast_entries(*doc)->0[i])->0).1 == (#[trigger] v@[i]).text()
                    &&& v@[i].datetime.wall_seconds() == (reading_of(forecast_entries(*doc)->0[i])->0).0
                        + v@[i].utc_offset
                    &&& -SECONDS_PER_DAY < v@[i].utc_offset < SECONDS_PER_DAY
                    &&& v@[i].datetime.wf()
                    &&& v@[i].datetime.has_four_digit_year()
                },
            Err(e) => (e == WeatherError::MissingField) == !forecast_readable(*doc) && (e
                == WeatherError::MissingField || e == WeatherError::TimestampOutOfRange),
        },
{
    let readings = match forecast_readings(doc) {
        Ok(v) => v,
        Err(e) => {
            return Err(e);
        },
    };
    let mut times: Vec<Option<(LocalDateTime, i32)>> = Vec::new();
    let mut i: usize = 0;
    while i < readings.len()
        invariant
            0 <= i <= readings@.len(),
            times@.len() == i,
            forall|j: int|
                0 <= j < i ==> (#[trigger] times@[j] matches Some((d, offset)) ==> d.wall_seconds()
                    == readings@[j].timestamp + offset && -SECONDS_PER_DAY < offset < SECONDS_PER_DAY),
            forall|j: int|
                0 <= j < i && EARLIEST_FOUR_DIGIT_SECS <= readings@[j].timestamp <= LATEST_FOUR_DIGIT_SECS
                    ==> (#[trigger] times@[j] matches Some((d, _)) && d.wf() && d.has_four_digit_year()),
        decreases readings@.len() - i,
    {
        let t = local_datetime(readings[i].timestamp);
        proof {
            if let Some((d, _)) = t {
                if EARLIEST_FOUR_DIGIT_SECS <= readings@[i as int].timestamp <= LATEST_FOUR_DIGIT_SECS {
                    lemma_four_digit_year(d, readings@[i as int].timestamp as int);
                }
            }
        }
        times.push(t);
        i = i + 1;
    }
    let r = forecast_points(&readings, &times);
    proof {
        if forecast_times_in_range(*doc) && r is Err {
            let j = choose|j: int|
                0 <= j < times@.len() && !(#[trigger] times@[j] matches Some((d, _)) && d.wf()
                    && d.has_four_digit_year());
            assert(Some(readings@[j].reading()) == reading_of(forecast_entries(*doc)->0[j]));
        }
        if r is Ok {
            let v = r->Ok_0;
            assert forall|i: int| 0 <= i < v@.len() implies (reading_of(forecast_entries(*doc)->0[i])->0).1
                == (#[trigger] v@[i]).text() && v@[i].datetime.wall_seconds() == (reading_of(
                forecast_entries(*doc)->0[i],
            )->0).0 + v@[i].utc_offset && -SECONDS_PER_DAY < v@[i].utc_offset < SECONDS_PER_DAY by {
                assert(Some(readings@[i].reading()) == reading_of(forecast_entries(*doc)->0[i]));
                assert(times@[i] == Some((v@[i].datetime, v@[i].utc_offset)));
            }
        }
    }
    r
}

/// The address of the geocoding request for `city`, asking for up to five places.
pub fn geocoding_url(city: &str) -> (r: String)
    ensures
        r@ == "http://api.openweathermap.org/geo/1.0/direct?q="@ + city@ + "&limit=5"@,
{
    let mut s = String::from_str("http://api.openweathermap.org/geo/1.0/direct?q=");
    s.append(city);
    s.append("&limit=5");
    s
}

/// The address of the current-weather request at `c`, in metric units.
pub fn current_weather_url(c: &Coordinates) -> (r: String)
    ensures
        r@ == "https://api.openweathermap.org/data/2.5/weather?lat="@ + c.latitude@ + "&lon="@
            + c.longitude@ + "&units=metric"@,
{
    let mut s = String::from_str("https://api.openweathermap.org/data/2.5/weather?lat=");
    s.append(c.latitude.as_str());
    s.append("&lon=");
    s.append(c.longitude.as_str());
    s.append("&units=metric");
    s
}

/// The address of the forecast request at `c`: seven points, in metric units.
pub fn forecast_url(c: &Coordinates) -> (r: String)
    ensures
        r@ == "https://api.openweathermap.org/data/2.5/forecast?lat="@ + c.latitude@ + "&lon="@
            + c.longitude@ + "&cnt=7&units=metric"@,
{
    let mut s = String::from_str("https://api.openweathermap.org/data/2.5/forecast?lat=");
    s.append(c.latitude.as_str());
    s.append("&lon=");
    s.append(c.longitude.as_str());
    s.append("&cnt=7&units=metric");
    s
}

/// What every request carries: the provider's API key.
pub struct WeatherClient {
    pub api_key: String,
}

impl WeatherClient {
    /// A client for the key found in the environment; without one, nothing can be asked.
    pub fn new(api_key: Option<String>) -> (r: Result<WeatherClient, WeatherError>)
        ensures
            match api_key {
                Some(k) => r matches Ok(c) && c.api_key@ == k@,
                None => r == Err::<WeatherClient, WeatherError>(WeatherError::MissingCredential),
            },
    {
        match api_key {
            Some(k) => Ok(WeatherClient { api_key: k }),
            None => Err(WeatherError::MissingCredential),
        }
    }

    /// The address to send: `url` with the API key appended as a query parameter.
    pub fn request_url(&self, url: &str) -> (r: String)
        ensures
            r@ == url@ + "&appid="@ + self.api_key@,
    {
        let mut s = String::from_str(url);
        s.append("&appid=");
        s.append(self.api_key.as_str());
        s
    }
}

} // verus!
