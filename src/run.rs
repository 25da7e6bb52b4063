use vstd::prelude::*;
use crate::config::{Config, Coordinate};
use crate::error::WeatherError;
use crate::setup::GEOCODE_FAILURE_PREFIX;

verus! {

/// What one run of the tool does.
#[derive(PartialEq, Eq, Structural, Clone, Copy, Debug)]
pub enum RunPlan {
    /// Ask the setup questions, store the answers, and stop.
    Setup,
    /// Tell the user that no key is stored, and stop.
    MissingApiKey,
    /// Look up the current conditions and show them.
    Fetch,
}

/// Chooses what a run does: setup where it was asked for, else a lookup, which
/// needs a stored key.
pub fn plan_run(setup: bool, config: &Config) -> (r: RunPlan)
    ensures
        setup ==> r == RunPlan::Setup,
        !setup && config.api_key@.len() == 0 ==> r == RunPlan::MissingApiKey,
        !setup && config.api_key@.len() != 0 ==> r == RunPlan::Fetch,
{
    if setup {
        RunPlan::Setup
    } else if config.api_key.as_str().is_empty() {
        RunPlan::MissingApiKey
    } else {
        RunPlan::Fetch
    }
}

/// The place a lookup is made for, and the message to show on the way. With no
/// ZIP code given, the stored place. With one, the place it resolved to, or,
/// where it did not resolve, the stored place and a message that says why.
pub fn place_for_run(config: &Config, zip_outcome: Option<Result<Coordinate, WeatherError>>) -> (r:
    (Coordinate, Option<String>))
    ensures
        match zip_outcome {
            Some(Ok(c)) => r.0 == c && r.1 is None,
            Some(Err(e)) => {
                &&& r.0.latitude_bits == config.latitude_bits
                &&& r.0.longitude_bits == config.longitude_bits
                &&& r.1 is Some
                &&& r.1->0@ == GEOCODE_FAILURE_PREFIX@ + e.text()
            },
            None => {
                &&& r.0.latitude_bits == config.latitude_bits
                &&& r.0.longitude_bits == config.longitude_bits
                &&& r.1 is None
            },
        },
{
    match zip_outcome {
        Some(Ok(c)) => (c, None),
        Some(Err(e)) => {
            let mut m = String::from_str(GEOCODE_FAILURE_PREFIX);
            let text = e.message();
            m.append(text.as_str());
            (config.coordinate(), Some(m))
        },
        None => (config.coordinate(), None),
    }
}

pub const FETCH_FAILURE_PREFIX: &'static str = "Error fetching weather data: ";

/// The message shown when the current conditions could not be had.
pub fn fetch_failure_message(e: &WeatherError) -> (r: String)
    ensures
        r@ == FETCH_FAILURE_PREFIX@ + e.text(),
{
    let mut m = String::from_str(FETCH_FAILURE_PREFIX);
    let text = e.message();
    m.append(text.as_str());
    m
}

} // verus!
