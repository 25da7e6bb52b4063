use vstd::prelude::*;

verus! {

/// A point on the map. Each angle is held as the bit pattern of the IEEE-754
/// double that names it in degrees, so that it is stored and read back exactly.
#[derive(PartialEq, Eq, Structural, Clone, Copy, Debug)]
pub struct Coordinate {
    pub latitude_bits: u64,
    pub longitude_bits: u64,
}

/// The stored settings: the service key, the place to report on, and the unit
/// system ("imperial", "metric", or anything else for Kelvin).
#[derive(Debug)]
pub struct Config {
    pub api_key: String,
    pub latitude_bits: u64,
    pub longitude_bits: u64,
    pub units: String,
}

/// The settings of a first run: no key, the point at zero degrees, imperial units.
pub open spec fn is_default_config(c: Config) -> bool {
    &&& c.api_key@ == Seq::<char>::empty()
    &&& c.latitude_bits == 0
    &&& c.longitude_bits == 0
    &&& c.units@ == "imperial"@
}

impl Config {
    /// The settings used when no file holds any yet.
    pub fn defaults() -> (r: Config)
        ensures
            is_default_config(r),
    {
        Config {
            api_key: String::new(),
            latitude_bits: 0,
            longitude_bits: 0,
            units: String::from_str("imperial"),
        }
    }

    /// Where the settings point.
    pub fn coordinate(&self) -> (r: Coordinate)
        ensures
            r.latitude_bits == self.latitude_bits,
            r.longitude_bits == self.longitude_bits,
    {
        Coordinate { latitude_bits: self.latitude_bits, longitude_bits: self.longitude_bits }
    }
}

/// What `str::trim` leaves of a line: the line without leading and trailing white space.
pub uninterp spec fn trimmed(line: Seq<char>) -> Seq<char>;

/// Relies on `str::trim`: the result is the line with white space removed at both
/// ends, so it depends on the line alone and is never longer than it.
#[verifier::external_body]
fn trim_line(line: &str) -> (r: String)
    ensures
        r@ == trimmed(line@),
        r@.len() <= line@.len(),
{
    line.trim().to_string()
}

/// A value after one prompt: kept where the (trimmed) answer is empty, else the answer.
pub open spec fn kept_or_replaced(current: Seq<char>, answer: Seq<char>) -> Seq<char> {
    if answer.len() == 0 {
        current
    } else {
        answer
    }
}

/// Keeps `current` where `answer`, already trimmed, is empty, and takes `answer` otherwise.
pub fn keep_or_replace(current: &str, answer: &str) -> (r: String)
    ensures
        r@ == kept_or_replaced(current@, answer@),
{
    if answer.is_empty() {
        String::from_str(current)
    } else {
        String::from_str(answer)
    }
}

/// The value that a prompt leaves, given its current value and the raw line typed.
pub fn updated_value(current: &str, line: &str) -> (r: String)
    ensures
        r@ == kept_or_replaced(current@, trimmed(line@)),
{
    let answer = trim_line(line);
    keep_or_replace(current, answer.as_str())
}

/// The text of a prompt that shows the current value.
pub open spec fn prompt_line(label: Seq<char>, current: Seq<char>) -> Seq<char> {
    label + " (current: "@ + current + "):"@
}

/// Builds the text of a prompt that shows the current value.
pub fn prompt_text(label: &str, current: &str) -> (r: String)
    ensures
        r@ == prompt_line(label@, current@),
{
    let mut r = String::from_str(label);
    r.append(" (current: ");
    r.append(current);
    r.append("):");
    r
}

} // verus!
