use vstd::prelude::*;

verus! {

/// What can go wrong while loading the configuration or talking to the weather service.
#[derive(Debug)]
pub enum WeatherError {
    /// A configuration file or a response body that is not well formed.
    Parse(String),
    /// A file that could not be read or written.
    Io(String),
    /// A request that could not complete.
    Network(String),
    /// A response without a field that the lookup needs, or with one of the wrong type.
    FieldMissing(String),
}

impl WeatherError {
    /// The text that the error carries.
    pub open spec fn text(&self) -> Seq<char> {
        match self {
            WeatherError::Parse(m) => m@,
            WeatherError::Io(m) => m@,
            WeatherError::Network(m) => m@,
            WeatherError::FieldMissing(m) => m@,
        }
    }

    /// The error as it is shown to the user.
    pub fn message(&self) -> (r: String)
        ensures
            r@ == self.text(),
    {
        match self {
            WeatherError::Parse(m) => m.clone(),
            WeatherError::Io(m) => m.clone(),
            WeatherError::Network(m) => m.clone(),
            WeatherError::FieldMissing(m) => m.clone(),
        }
    }
}

} // verus!
