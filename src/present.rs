use vstd::prelude::*;
use vstd::utf8::encode_utf8;

verus! {

/// A run of `n` spaces.
pub open spec fn spaces(n: nat) -> Seq<char> {
    Seq::new(n, |i: int| ' ')
}

/// `text` centered in a field of `width` characters: the padding is split in two,
/// and where it is odd the extra space goes on the right. Text at least as wide as
/// the field is left as it is.
pub open spec fn centered(text: Seq<char>, width: nat) -> Seq<char> {
    if text.len() >= width {
        text
    } else {
        let pad = (width - text.len()) as nat;
        spaces(pad / 2) + text + spaces((pad - pad / 2) as nat)
    }
}

fn push_spaces(s: &mut String, n: usize)
    ensures
        final(s)@ == old(s)@ + spaces(n as nat),
{
    let mut i: usize = 0;
    while i < n
        invariant
            i <= n,
            s@ == old(s)@ + spaces(i as nat),
        decreases n - i,
    {
        s.append(" ");
        proof {
            reveal_strlit(" ");
            assert(spaces((i + 1) as nat) =~= spaces(i as nat) + " "@);
        }
        i = i + 1;
    }
}

/// Centers `text` in a field of `width` characters.
pub fn center(text: &str, width: usize) -> (r: String)
    ensures
        r@ == centered(text@, width as nat),
{
    let len = text.unicode_len();
    if len >= width {
        String::from_str(text)
    } else {
        let pad = width - len;
        let mut r = String::new();
        push_spaces(&mut r, pad / 2);
        r.append(text);
        push_spaces(&mut r, pad - pad / 2);
        r
    }
}

/// The four lines of art drawn for a condition label. Labels outside the table
/// get four lines of three spaces.
pub open spec fn glyph_of(label: Seq<char>) -> Seq<Seq<char>> {
    if label == "Clear"@ {
        seq![" \\ | / "@, "- ( ) -"@, " / | \\ "@, "       "@]
    } else if label == "Clouds"@ {
        seq!["    .-.   "@, " .-(   ). "@, "(________)"@, "          "@]
    } else if label == "Rain"@ {
        seq!["' '' '"@, " ' '' "@, "''  ' "@, "      "@]
    } else if label == "Snow"@ {
        seq!["*  * *"@, " *  * "@, "* *  *"@, "      "@]
    } else {
        seq!["   "@, "   "@, "   "@, "   "@]
    }
}

/// A condition label outside the table is drawn as four lines of three spaces.
pub proof fn unknown_label_draws_blank(label: Seq<char>)
    requires
        label != "Clear"@,
        label != "Clouds"@,
        label != "Rain"@,
        label != "Snow"@,
    ensures
        glyph_of(label).len() == 4,
        forall|i: int| 0 <= i < 4 ==> #[trigger] glyph_of(label)[i] == "   "@,
{
}

/// Length of text in bytes of UTF-8.
pub open spec fn byte_len(text: Seq<char>) -> nat {
    encode_utf8(text).len()
}

/// The art lines for a condition label, one `String` per line.
pub fn glyph_lines(label: &str) -> (r: Vec<String>)
    ensures
        r@.len() == 4,
        forall|i: int| 0 <= i < 4 ==> #[trigger] r@[i]@ == glyph_of(label@)[i],
{
    let l = String::from_str(label);
    if l == String::from_str("Clear") {
        vec![
            String::from_str(" \\ | / "),
            String::from_str("- ( ) -"),
            String::from_str(" / | \\ "),
            String::from_str("       "),
        ]
    } else if l == String::from_str("Clouds") {
        vec![
            String::from_str("    .-.   "),
            String::from_str(" .-(   ). "),
            String::from_str("(________)"),
            String::from_str("          "),
        ]
    } else if l == String::from_str("Rain") {
        vec![
            String::from_str("' '' '"),
            String::from_str(" ' '' "),
            String::from_str("''  ' "),
            String::from_str("      "),
        ]
    } else if l == String::from_str("Snow") {
        vec![
            String::from_str("*  * *"),
            String::from_str(" *  * "),
            String::from_str("* *  *"),
            String::from_str("      "),
        ]
    } else {
        vec![
            String::from_str("   "),
            String::from_str("   "),
            String::from_str("   "),
            String::from_str("   "),
        ]
    }
}

/// Current conditions at one place, each reading held as the text it is shown with.
#[derive(Debug)]
pub struct WeatherReport {
    pub city: String,
    pub temperature: String,
    pub temp_max: String,
    pub temp_min: String,
    pub wind_speed: String,
    pub condition: String,
}

/// Width of the art column: the wider of the last art line and the city name,
/// counted in bytes (the art is ASCII: one byte to a character).
pub open spec fn report_width(report: WeatherReport) -> nat {
    let art = glyph_of(report.condition@)[3].len();
    let city = byte_len(report.city@);
    if art >= city { art } else { city }
}

/// The four lines of the report: three centered art lines and the centered city
/// name, each followed by a label and a reading. The label "Min" carries the
/// maximum reading and "Max" the minimum one, as the tool has always shown them.
pub open spec fn rendered(report: WeatherReport) -> Seq<Seq<char>> {
    let g = glyph_of(report.condition@);
    let w = report_width(report);
    seq![
        centered(g[0], w) + " | Temperature: "@ + report.temperature@,
        centered(g[1], w) + " | Min: "@ + report.temp_max@,
        centered(g[2], w) + " | Max: "@ + report.temp_min@,
        centered(report.city@, w) + " | Wind Speed: "@ + report.wind_speed@,
    ]
}

fn labelled(left: String, label: &str, value: &String) -> (r: String)
    ensures
        r@ == left@ + label@ + value@,
{
    let mut r = left;
    r.append(label);
    r.append(value.as_str());
    r
}

/// Renders a report as the four lines printed for it.
pub fn render(report: &WeatherReport) -> (r: Vec<String>)
    ensures
        r@.len() == 4,
        forall|i: int| 0 <= i < 4 ==> #[trigger] r@[i]@ == rendered(*report)[i],
{
    let g = glyph_lines(report.condition.as_str());
    let art_width = g[3].as_str().unicode_len();
    let city_width = report.city.as_str().as_bytes().len();
    let width = if art_width >= city_width { art_width } else { city_width };
    let l0 = labelled(center(g[0].as_str(), width), " | Temperature: ", &report.temperature);
    let l1 = labelled(center(g[1].as_str(), width), " | Min: ", &report.temp_max);
    let l2 = labelled(center(g[2].as_str(), width), " | Max: ", &report.temp_min);
    let l3 = labelled(center(report.city.as_str(), width), " | Wind Speed: ", &report.wind_speed);
    let r = vec![l0, l1, l2, l3];
    assert(width as nat == report_width(*report));
    r
}

} // verus!
