use vstd::prelude::*;
use crate::config::Coordinate;
use crate::error::WeatherError;
use crate::present::WeatherReport;

verus! {

/// The address that resolves a ZIP code to a place.
pub open spec fn geocode_address(zip: Seq<char>, api_key: Seq<char>) -> Seq<char> {
    "https://api.openweathermap.org/data/2.5/weather?zip="@ + zip + "&appid="@ + api_key
}

/// Builds the address that resolves a ZIP code to a place.
pub fn geocode_url(zip: &str, api_key: &str) -> (r: String)
    ensures
        r@ == geocode_address(zip@, api_key@),
{
    let mut r = String::from_str("https://api.openweathermap.org/data/2.5/weather?zip=");
    r.append(zip);
    r.append("&appid=");
    r.append(api_key);
    r
}

/// The address of the current conditions at a point, given the text of its angles.
pub open spec fn weather_address(
    api_key: Seq<char>,
    latitude: Seq<char>,
    longitude: Seq<char>,
    units: Seq<char>,
) -> Seq<char> {
    "https://api.openweathermap.org/data/2.5/weather?lat="@ + latitude + "&lon="@ + longitude
        + "&appid="@ + api_key + "&units="@ + units
}

/// Builds the address of the current conditions at a point, given the text of its angles.
pub fn weather_url(api_key: &str, latitude: &str, longitude: &str, units: &str) -> (r: String)
    ensures
        r@ == weather_address(api_key@, latitude@, longitude@, units@),
{
    let mut r = String::from_str("https://api.openweathermap.org/data/2.5/weather?lat=");
    r.append(latitude);
    r.append("&lon=");
    r.append(longitude);
    r.append("&appid=");
    r.append(api_key);
    r.append("&units=");
    r.append(units);
    r
}

/// The place that a geocoding answer gives, from the two angles found in it: both
/// must be there, and the latitude is looked for first.
pub fn coordinates_from(latitude: Option<u64>, longitude: Option<u64>) -> (r: Result<
    Coordinate,
    WeatherError,
>)
    ensures
        latitude is None ==> r is Err && r->Err_0 is FieldMissing && r->Err_0.text()
            == "Latitude not found"@,
        latitude is Some && longitude is None ==> r is Err && r->Err_0 is FieldMissing
            && r->Err_0.text() == "Longitude not found"@,
        latitude is Some && longitude is Some ==> r == Ok::<Coordinate, WeatherError>(
            Coordinate { latitude_bits: latitude->0, longitude_bits: longitude->0 },
        ),
{
    match latitude {
        None => Err(WeatherError::FieldMissing(String::from_str("Latitude not found"))),
        Some(lat) => match longitude {
            None => Err(WeatherError::FieldMissing(String::from_str("Longitude not found"))),
            Some(lon) => Ok(Coordinate { latitude_bits: lat, longitude_bits: lon }),
        },
    }
}

/// A text reading, or `fallback` where the answer had none.
pub open spec fn reading_or(found: Option<String>, fallback: Seq<char>) -> Seq<char> {
    match found {
        Some(s) => s@,
        None => fallback,
    }
}

fn text_or(found: Option<String>, fallback: &str) -> (r: String)
    ensures
        r@ == reading_or(found, fallback@),
{
    match found {
        Some(s) => s,
        None => String::from_str(fallback),
    }
}

impl WeatherReport {
    /// Assembles a report from what a conditions answer held. A missing name or
    /// condition reads "Unknown"; a missing number reads "0", the way zero is shown.
    pub fn from_readings(
        city: Option<String>,
        temperature: Option<String>,
        temp_max: Option<String>,
        temp_min: Option<String>,
        wind_speed: Option<String>,
        condition: Option<String>,
    ) -> (r: WeatherReport)
        ensures
            r.city@ == reading_or(city, "Unknown"@),
            r.temperature@ == reading_or(temperature, "0"@),
            r.temp_max@ == reading_or(temp_max, "0"@),
            r.temp_min@ == reading_or(temp_min, "0"@),
            r.wind_speed@ == reading_or(wind_speed, "0"@),
            r.condition@ == reading_or(condition, "Unknown"@),
    {
        WeatherReport {
            city: text_or(city, "Unknown"),
            temperature: text_or(temperature, "0"),
            temp_max: text_or(temp_max, "0"),
            temp_min: text_or(temp_min, "0"),
            wind_speed: text_or(wind_speed, "0"),
            condition: text_or(condition, "Unknown"),
        }
    }
}

} // verus!
