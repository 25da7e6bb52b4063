use vstd::prelude::*;
use crate::config::{Config, Coordinate, kept_or_replaced, prompt_line, trimmed, updated_value, prompt_text};
use crate::error::WeatherError;

verus! {

/// Where the setup questions stand.
#[derive(PartialEq, Eq, Structural, Clone, Copy, Debug)]
pub enum SetupStep {
    /// Waiting for the answer on the service key.
    ApiKey,
    /// Waiting for the answer on the unit system.
    Units,
    /// Waiting for the answer on the ZIP code.
    Zip,
    /// Waiting for a ZIP code to be resolved.
    Geocoding,
    /// Nothing left to ask.
    Done,
}

/// What the caller is to do next for the setup questions.
#[derive(Debug)]
pub enum SetupAction {
    /// Show this prompt and hand back the line typed.
    Ask(String),
    /// Resolve this ZIP code with this key and hand back the outcome.
    Geocode { zip: String, api_key: String },
    /// The ZIP code resolved to this place, now stored; nothing is left to ask.
    Found(Coordinate),
    /// The ZIP code could not be resolved: show this message; nothing is left to ask.
    Failed(String),
    /// Nothing is left to ask.
    Finish,
}

pub const API_KEY_LABEL: &'static str = "Enter API key";

pub const UNITS_LABEL: &'static str = "Enter units (imperial, metric, default(Kelvin))";

pub const ZIP_LABEL: &'static str = "Enter ZIP code (or press Enter to skip)";

pub const GEOCODE_FAILURE_PREFIX: &'static str = "Failed to retrieve coordinates: ";

/// The setup questions over a configuration that they change in place: the
/// service key, then the unit system, then a ZIP code that, once resolved,
/// replaces the stored place.
pub struct SetupFlow {
    pub step: SetupStep,
    pub config: Config,
}

impl SetupFlow {
    /// Starts the questions over `config`: the first one asks for the key.
    pub fn start(config: Config) -> (r: (SetupFlow, SetupAction))
        ensures
            r.0.step == SetupStep::ApiKey,
            r.0.config == config,
            r.1 is Ask,
            r.1->Ask_0@ == prompt_line(API_KEY_LABEL@, config.api_key@),
    {
        let line = prompt_text(API_KEY_LABEL, config.api_key.as_str());
        (SetupFlow { step: SetupStep::ApiKey, config }, SetupAction::Ask(line))
    }

    /// Whether the questions are over.
    pub fn is_done(&self) -> (r: bool)
        ensures
            r == (self.step == SetupStep::Done),
    {
        self.step == SetupStep::Done
    }

    /// Takes the line typed at the current prompt. A line that comes when no
    /// prompt is open changes nothing and ends nothing.
    pub fn on_line(&mut self, line: &str) -> (r: SetupAction)
        ensures
            old(self).step == SetupStep::ApiKey ==> {
                &&& final(self).step == SetupStep::Units
                &&& final(self).config.api_key@ == kept_or_replaced(
                    old(self).config.api_key@,
                    trimmed(line@),
                )
                &&& final(self).config.units == old(self).config.units
                &&& final(self).config.latitude_bits == old(self).config.latitude_bits
                &&& final(self).config.longitude_bits == old(self).config.longitude_bits
                &&& r is Ask
                &&& r->Ask_0@ == prompt_line(UNITS_LABEL@, old(self).config.units@)
            },
            old(self).step == SetupStep::Units ==> {
                &&& final(self).step == SetupStep::Zip
                &&& final(self).config.units@ == kept_or_replaced(
                    old(self).config.units@,
                    trimmed(line@),
                )
                &&& final(self).config.api_key == old(self).config.api_key
                &&& final(self).config.latitude_bits == old(self).config.latitude_bits
                &&& final(self).config.longitude_bits == old(self).config.longitude_bits
                &&& r is Ask
                &&& r->Ask_0@ == prompt_line(ZIP_LABEL@, Seq::<char>::empty())
            },
            old(self).step == SetupStep::Zip ==> {
                &&& final(self).config == old(self).config
                &&& if trimmed(line@).len() == 0 {
                    &&& final(self).step == SetupStep::Done
                    &&& r is Finish
                } else {
                    &&& final(self).step == SetupStep::Geocoding
                    &&& r is Geocode
                    &&& r->zip@ == trimmed(line@)
                    &&& r->api_key@ == old(self).config.api_key@
                }
            },
            old(self).step == SetupStep::Geocoding || old(self).step == SetupStep::Done ==> {
                &&& *final(self) == *old(self)
                &&& r is Finish
            },
    {
        match self.step {
            SetupStep::ApiKey => {
                let key = updated_value(self.config.api_key.as_str(), line);
                self.config.api_key = key;
                self.step = SetupStep::Units;
                SetupAction::Ask(prompt_text(UNITS_LABEL, self.config.units.as_str()))
            },
            SetupStep::Units => {
                let units = updated_value(self.config.units.as_str(), line);
                self.config.units = units;
                self.step = SetupStep::Zip;
                proof {
                    reveal_strlit("");
                }
                SetupAction::Ask(prompt_text(ZIP_LABEL, ""))
            },
            SetupStep::Zip => {
                let zip = updated_value("", line);
                proof {
                    reveal_strlit("");
                }
                if zip.as_str().is_empty() {
                    self.step = SetupStep::Done;
                    SetupAction::Finish
                } else {
                    self.step = SetupStep::Geocoding;
                    SetupAction::Geocode { zip, api_key: self.config.api_key.clone() }
                }
            },
            _ => SetupAction::Finish,
        }
    }

    /// Takes the outcome of resolving the ZIP code. A place found replaces the
    /// stored one; a failure leaves the configuration as it was. Either way the
    /// questions are over. An outcome that comes when none is awaited changes nothing.
    pub fn on_geocode(&mut self, outcome: Result<Coordinate, WeatherError>) -> (r: SetupAction)
        ensures
            old(self).step == SetupStep::Geocoding ==> final(self).step == SetupStep::Done
                && match outcome {
                Ok(c) => {
                    &&& final(self).config.latitude_bits == c.latitude_bits
                    &&& final(self).config.longitude_bits == c.longitude_bits
                    &&& final(self).config.api_key == old(self).config.api_key
                    &&& final(self).config.units == old(self).config.units
                    &&& r == SetupAction::Found(c)
                },
                Err(e) => {
                    &&& final(self).config == old(self).config
                    &&& r is Failed
                    &&& r->Failed_0@ == GEOCODE_FAILURE_PREFIX@ + e.text()
                },
            },
            old(self).step != SetupStep::Geocoding ==> *final(self) == *old(self) && r is Finish,
    {
        if self.step != SetupStep::Geocoding {
            return SetupAction::Finish;
        }
        self.step = SetupStep::Done;
        match outcome {
            Ok(c) => {
                self.config.latitude_bits = c.latitude_bits;
                self.config.longitude_bits = c.longitude_bits;
                SetupAction::Found(c)
            },
            Err(e) => {
                let mut m = String::from_str(GEOCODE_FAILURE_PREFIX);
                let text = e.message();
                m.append(text.as_str());
                SetupAction::Failed(m)
            },
        }
    }
}

} // verus!
