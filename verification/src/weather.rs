//! The weather tool: the wttr.in request and the summary of its answer.
use vstd::prelude::*;

use crate::error::join3;
use crate::text::{append_str, chars_of, string_of};

verus! {

/// A value as wttr.in wraps it.
#[derive(Debug)]
pub struct ValueWrapper {
    pub value: String,
}

/// The current weather at a place.
#[derive(Debug)]
pub struct CurrentCondition {
    pub temp_c: String,
    pub feels_like_c: Option<String>,
    pub humidity: String,
    pub weather_desc: Vec<ValueWrapper>,
}

/// The place that the answer describes.
#[derive(Debug)]
pub struct NearestArea {
    pub area_name: Vec<ValueWrapper>,
}

/// The parts of a wttr.in answer that the tool reads.
#[derive(Debug)]
pub struct WttrResponse {
    pub current_condition: Vec<CurrentCondition>,
    pub nearest_area: Vec<NearestArea>,
}

/// The address that asks wttr.in for the weather at `location`, as JSON.
pub fn weather_url(location: &str) -> (u: String)
    ensures
        u@ == "https://wttr.in/"@ + location@ + "?format=j1"@,
{
    join3("https://wttr.in/", location, "?format=j1")
}

/// The name of the place: the first name of the first area, else `Unknown`.
pub open spec fn area_text(r: WttrResponse) -> Seq<char> {
    if r.nearest_area@.len() > 0 && r.nearest_area@[0].area_name@.len() > 0 {
        r.nearest_area@[0].area_name@[0].value@
    } else {
        "Unknown"@
    }
}

/// The description of the weather: its first description, else `No description`.
pub open spec fn desc_text(c: CurrentCondition) -> Seq<char> {
    if c.weather_desc@.len() > 0 {
        c.weather_desc@[0].value@
    } else {
        "No description"@
    }
}

/// The felt temperature, else `Unknown`.
pub open spec fn feels_text(c: CurrentCondition) -> Seq<char> {
    match c.feels_like_c {
        Some(f) => f@,
        None => "Unknown"@,
    }
}

/// The summary the tool answers for the first current condition.
pub open spec fn weather_summary(r: WttrResponse) -> Seq<char> {
    let c = r.current_condition@[0];
    "Location: "@ + area_text(r) + " Temperature: "@ + c.temp_c@ + "°C (Feels like: "@ + feels_text(c)
        + "°C) Humidity: "@ + c.humidity@ + "% State: "@ + desc_text(c)
}

/// Summarises a wttr.in answer; an answer without a current condition is an error.
pub fn summarize_weather(data: &WttrResponse) -> (r: Result<String, String>)
    ensures
        data.current_condition@.len() == 0 ==> (r matches Err(m) && m@ == "No weather data found"@),
        data.current_condition@.len() > 0 ==> (r matches Ok(s) && s@ == weather_summary(*data)),
{
    if data.current_condition.len() == 0 {
        return Err("No weather data found".to_owned());
    }
    let c = &data.current_condition[0];
    let area: &str = if data.nearest_area.len() > 0 && data.nearest_area[0].area_name.len() > 0 {
        data.nearest_area[0].area_name[0].value.as_str()
    } else {
        "Unknown"
    };
    let desc: &str = if c.weather_desc.len() > 0 {
        c.weather_desc[0].value.as_str()
    } else {
        "No description"
    };
    let feels: &str = match &c.feels_like_c {
        Some(f) => f.as_str(),
        None => "Unknown",
    };
    let mut v = chars_of("Location: ");
    append_str(&mut v, area);
    append_str(&mut v, " Temperature: ");
    append_str(&mut v, c.temp_c.as_str());
    append_str(&mut v, "°C (Feels like: ");
    append_str(&mut v, feels);
    append_str(&mut v, "°C) Humidity: ");
    append_str(&mut v, c.humidity.as_str());
    append_str(&mut v, "% State: ");
    append_str(&mut v, desc);
    Ok(string_of(&v))
}

} // verus!
