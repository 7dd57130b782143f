//! The weather bot's decisions and texts: which messages ask it for the
//! weather, and what it answers.

use vstd::prelude::*;
use crate::text::{has_prefix, starts_with, substring};

verus! {

/// What WMO weather interpretation code `code` means, for the codes that
/// Open-Meteo reports.
pub open spec fn weather_code_name(code: u8) -> Option<Seq<char>> {
    match code {
        0 => Some("clear"@),
        1 => Some("mainly clear"@),
        2 => Some("partly cloudy"@),
        3 => Some("overcast"@),
        45 => Some("fog"@),
        48 => Some("depositing rime fog"@),
        51 => Some("light drizzle"@),
        53 => Some("moderate drizzle"@),
        55 => Some("dense drizzle"@),
        56 => Some("light freezing drizzle"@),
        57 => Some("dense freezing drizzle"@),
        61 => Some("slight rain"@),
        63 => Some("moderate rain"@),
        65 => Some("heavy rain"@),
        66 => Some("light freezing rain"@),
        67 => Some("heavy freezing rain"@),
        71 => Some("slight snow"@),
        73 => Some("moderate snow"@),
        75 => Some("heavy snow"@),
        77 => Some("snow grains"@),
        80 => Some("slight rain shower"@),
        81 => Some("moderate rain shower"@),
        82 => Some("violent rain shower"@),
        85 => Some("slight snow shower"@),
        86 => Some("heavy snow shower"@),
        95 => Some("Thunderstorm"@),
        96 => Some("thunderstorm with slight hail"@),
        99 => Some("thunderstorm with heavy hail"@),
        _ => None,
    }
}

/// Whether `code` is a weather code that the bot can put in words.
pub fn is_known_weather_code(code: u8) -> (r: bool)
    ensures
        r == (weather_code_name(code) is Some),
{
    match code {
        0 | 1 | 2 | 3 | 45 | 48 | 51 | 53 | 55 | 56 | 57 | 61 | 63 | 65 | 66 | 67 | 71 | 73 | 75
        | 77 | 80 | 81 | 82 | 85 | 86 | 95 | 96 | 99 => true,
        _ => false,
    }
}

/// The words for weather code `code`.
pub fn weather_code_to_text(code: u8) -> (r: &'static str)
    requires
        weather_code_name(code) is Some,
    ensures
        r@ == weather_code_name(code)->0,
{
    match code {
        0 => "clear",
        1 => "mainly clear",
        2 => "partly cloudy",
        3 => "overcast",
        45 => "fog",
        48 => "depositing rime fog",
        51 => "light drizzle",
        53 => "moderate drizzle",
        55 => "dense drizzle",
        56 => "light freezing drizzle",
        57 => "dense freezing drizzle",
        61 => "slight rain",
        63 => "moderate rain",
        65 => "heavy rain",
        66 => "light freezing rain",
        67 => "heavy freezing rain",
        71 => "slight snow",
        73 => "moderate snow",
        75 => "heavy snow",
        77 => "snow grains",
        80 => "slight rain shower",
        81 => "moderate rain shower",
        82 => "violent rain shower",
        85 => "slight snow shower",
        86 => "heavy snow shower",
        95 => "Thunderstorm",
        96 => "thunderstorm with slight hail",
        _ => "thunderstorm with heavy hail",
    }
}

/// The name of compass point `i` of eight, clockwise from north.
pub open spec fn compass_point(i: int) -> Seq<char> {
    if i == 0 {
        "N"@
    } else if i == 1 {
        "NE"@
    } else if i == 2 {
        "E"@
    } else if i == 3 {
        "SE"@
    } else if i == 4 {
        "S"@
    } else if i == 5 {
        "SW"@
    } else if i == 6 {
        "W"@
    } else {
        "NW"@
    }
}

/// The compass point nearest to a direction of `degrees`: eight sectors of
/// 45 degrees, each centred on its point, north's reaching from 338 to 22.
pub open spec fn compass_sector(degrees: int) -> int {
    ((degrees + 22) / 45) % 8
}

/// The compass point for a wind from `direction` degrees.
pub fn direction_to_text(direction: u16) -> (r: &'static str)
    requires
        direction <= 360,
    ensures
        r@ == compass_point(compass_sector(direction as int)),
{
    if direction <= 22 {
        "N"
    } else if direction <= 67 {
        "NE"
    } else if direction <= 112 {
        "E"
    } else if direction <= 157 {
        "SE"
    } else if direction <= 202 {
        "S"
    } else if direction <= 247 {
        "SW"
    } else if direction <= 292 {
        "W"
    } else if direction <= 337 {
        "NW"
    } else {
        "N"
    }
}

/// The decimal digit `d`, as text.
pub open spec fn digit_text(d: int) -> Seq<char> {
    if d == 0 {
        "0"@
    } else if d == 1 {
        "1"@
    } else if d == 2 {
        "2"@
    } else if d == 3 {
        "3"@
    } else if d == 4 {
        "4"@
    } else if d == 5 {
        "5"@
    } else if d == 6 {
        "6"@
    } else if d == 7 {
        "7"@
    } else if d == 8 {
        "8"@
    } else {
        "9"@
    }
}

/// `n` written in decimal, without leading zeros.
pub open spec fn decimal(n: nat) -> Seq<char>
    decreases n,
{
    if n < 10 {
        digit_text(n as int)
    } else {
        decimal(n / 10) + digit_text((n % 10) as int)
    }
}

/// `n` written in decimal, with a `-` before a negative number.
pub open spec fn signed_decimal(n: int) -> Seq<char> {
    if n < 0 {
        "-"@ + decimal((-n) as nat)
    } else {
        decimal(n as nat)
    }
}

/// The text of digit `d`.
fn digit_str(d: u64) -> (r: &'static str)
    requires
        d < 10,
    ensures
        r@ == digit_text(d as int),
{
    match d {
        0 => "0",
        1 => "1",
        2 => "2",
        3 => "3",
        4 => "4",
        5 => "5",
        6 => "6",
        7 => "7",
        8 => "8",
        _ => "9",
    }
}

/// Appends `n` in decimal to `out`.
fn push_decimal(out: &mut String, n: u64)
    ensures
        final(out)@ == old(out)@ + decimal(n as nat),
    decreases n,
{
    if n >= 10 {
        push_decimal(out, n / 10);
    }
    out.append(digit_str(n % 10));
    assert(old(out)@ + decimal(n as nat) =~= if n >= 10 {
        old(out)@ + decimal((n / 10) as nat) + digit_text((n % 10) as int)
    } else {
        old(out)@ + digit_text((n % 10) as int)
    });
}

/// `n` written in decimal, as `format!("{}", n)` writes it.
pub fn decimal_text(n: u64) -> (r: String)
    ensures
        r@ == decimal(n as nat),
{
    let mut out = String::new();
    push_decimal(&mut out, n);
    assert(out@ =~= decimal(n as nat));
    out
}

/// `n` written in decimal with its sign, as `format!("{}", n)` writes it.
pub fn signed_decimal_text(n: i64) -> (r: String)
    ensures
        r@ == signed_decimal(n as int),
{
    let mut out = String::new();
    if n < 0 {
        let magnitude = (0i128 - n as i128) as u64;
        out.append("-");
        push_decimal(&mut out, magnitude);
    } else {
        push_decimal(&mut out, n as u64);
    }
    assert(out@ =~= signed_decimal(n as int));
    out
}

/// The current weather at a place, with the numbers that need floating
/// point already written out.
pub struct WeatherReport {
    /// The name of the place.
    pub place_name: String,
    /// The WMO weather interpretation code.
    pub weather_code: u8,
    /// The temperature at 2 m, in degrees Celsius, to one decimal.
    pub temperature: String,
    /// The relative humidity at 2 m, in percent.
    pub relative_humidity: u8,
    /// Where the wind at 10 m comes from, in degrees.
    pub wind_direction: u16,
    /// The wind speed at 10 m, in m/s, to whole units.
    pub wind_speed: String,
    /// The wind gusts at 10 m, in m/s, to whole units.
    pub wind_gusts: String,
    /// How many whole minutes ago the report was made.
    pub minutes_ago: i64,
}

/// The report can be put in words: its weather code is known and its wind
/// direction is at most 360 degrees.
pub open spec fn report_valid(r: WeatherReport) -> bool {
    &&& weather_code_name(r.weather_code) is Some
    &&& r.wind_direction <= 360
}

/// `weather at PLACE: WEATHER, TEMPC, HUMIDITY%, DIRECTION SPEED-GUSTSm/s (MINUTESm ago)`
pub open spec fn weather_text(r: WeatherReport) -> Seq<char> {
    "weather at "@ + r.place_name@ + ": "@ + weather_code_name(r.weather_code)->0 + ", "@
        + r.temperature@ + "C, "@ + decimal(r.relative_humidity as nat) + "%, "@ + compass_point(
        compass_sector(r.wind_direction as int),
    ) + " "@ + r.wind_speed@ + "-"@ + r.wind_gusts@ + "m/s ("@ + signed_decimal(
        r.minutes_ago as int,
    ) + "m ago)"@
}

/// Puts a weather report in words.
pub fn weather_to_text(report: &WeatherReport) -> (r: String)
    requires
        report_valid(*report),
    ensures
        r@ == weather_text(*report),
{
    let mut out = String::new();
    out.append("weather at ");
    out.append(report.place_name.as_str());
    out.append(": ");
    out.append(weather_code_to_text(report.weather_code));
    out.append(", ");
    out.append(report.temperature.as_str());
    out.append("C, ");
    push_decimal(&mut out, report.relative_humidity as u64);
    out.append("%, ");
    out.append(direction_to_text(report.wind_direction));
    out.append(" ");
    out.append(report.wind_speed.as_str());
    out.append("-");
    out.append(report.wind_gusts.as_str());
    out.append("m/s (");
    let minutes = signed_decimal_text(report.minutes_ago);
    out.append(minutes.as_str());
    out.append("m ago)");
    assert(out@ =~= weather_text(*report));
    out
}

/// How looking up the weather for a place went.
pub enum WeatherLookup {
    /// The place was found and its weather read.
    Found(WeatherReport),
    /// No place of that name was found.
    NoPlace,
    /// Looking up failed.
    Failed,
}

/// The bot's answer to a request for the weather.
pub open spec fn reply_for(lookup: WeatherLookup) -> Seq<char> {
    match lookup {
        WeatherLookup::Found(r) => weather_text(r),
        WeatherLookup::NoPlace => "don't know where it is"@,
        WeatherLookup::Failed => "hold up your finger"@,
    }
}

/// The bot's answer to a request for the weather: the report in words, or
/// why there is none.
pub fn reply_text(lookup: &WeatherLookup) -> (r: String)
    requires
        lookup matches WeatherLookup::Found(rep) ==> report_valid(*rep),
    ensures
        r@ == reply_for(*lookup),
{
    match lookup {
        WeatherLookup::Found(report) => weather_to_text(report),
        WeatherLookup::NoPlace => String::from_str("don't know where it is"),
        WeatherLookup::Failed => String::from_str("hold up your finger"),
    }
}

/// A message `NICK: PLACE` addressed to the bot, whose nickname is
/// `my_nickname`, asks for the weather at `PLACE`: gives `PLACE`, or `None`
/// for any other message.
pub fn place_request(my_nickname: &str, text: &str) -> (r: Option<String>)
    ensures
        r is Some <==> has_prefix(text@, my_nickname@ + ": "@),
        r matches Some(place) ==> text@ == my_nickname@ + ": "@ + place@,
{
    let prefix = String::from_str(my_nickname).concat(": ");
    if starts_with(text, prefix.as_str()) {
        let n = text.unicode_len();
        let place = substring(text, prefix.as_str().unicode_len(), n);
        assert(text@ =~= my_nickname@ + ": "@ + place@);
        Some(place)
    } else {
        None
    }
}

/// The intensity that words for the weather begin with: 0 for `slight` or
/// `light`, 1 for `moderate`, 2 for `dense`, `heavy` or `violent`, and -1
/// for none of these.
pub open spec fn intensity(w: Seq<char>) -> int {
    if has_prefix(w, "slight "@) || has_prefix(w, "light "@) {
        0
    } else if has_prefix(w, "moderate "@) {
        1
    } else if has_prefix(w, "dense "@) || has_prefix(w, "heavy "@) || has_prefix(w, "violent "@) {
        2
    } else {
        -1
    }
}

/// The kind of precipitation that a WMO code reports in grades of
/// intensity: drizzle, freezing drizzle, rain, freezing rain, snow, rain
/// showers, snow showers; 0 for a code outside these.
pub open spec fn precipitation_family(code: u8) -> int {
    if 51 <= code <= 55 {
        1
    } else if 56 <= code <= 57 {
        2
    } else if 61 <= code <= 65 {
        3
    } else if 66 <= code <= 67 {
        4
    } else if 71 <= code <= 75 {
        5
    } else if 80 <= code <= 82 {
        6
    } else if 85 <= code <= 86 {
        7
    } else {
        0
    }
}

} // verus!
