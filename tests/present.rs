use weather_cli::present::{center, glyph_lines, render, WeatherReport};

fn report(city: &str, condition: &str) -> WeatherReport {
    WeatherReport {
        city: city.to_string(),
        temperature: "72.5".to_string(),
        temp_max: "75".to_string(),
        temp_min: "60".to_string(),
        wind_speed: "5.1".to_string(),
        condition: condition.to_string(),
    }
}

#[test]
fn clear_in_reno_is_seven_wide() {
    let lines = render(&report("Reno", "Clear"));
    assert_eq!(
        lines,
        vec![
            " \\ | /  | Temperature: 72.5".to_string(),
            "- ( ) - | Min: 75".to_string(),
            " / | \\  | Max: 60".to_string(),
            " Reno   | Wind Speed: 5.1".to_string(),
        ]
    );
    for line in &lines {
        assert_eq!(&line[7..10], " | ");
    }
}

#[test]
fn unknown_label_gives_blank_art() {
    let g = glyph_lines("Tornado");
    assert_eq!(g, vec!["   ".to_string(); 4]);
    let lines = render(&report("Reno", "Tornado"));
    assert_eq!(lines[0], "     | Temperature: 72.5");
    assert_eq!(lines[3], "Reno | Wind Speed: 5.1");
}

#[test]
fn empty_label_gives_blank_art() {
    assert_eq!(glyph_lines(""), vec!["   ".to_string(); 4]);
}

#[test]
fn clouds_with_short_city() {
    let lines = render(&report("Ely", "Clouds"));
    assert_eq!(lines[0], "    .-.    | Temperature: 72.5");
    assert_eq!(lines[1], " .-(   ).  | Min: 75");
    assert_eq!(lines[2], "(________) | Max: 60");
    assert_eq!(lines[3], "   Ely     | Wind Speed: 5.1");
}

#[test]
fn rain_and_snow_art() {
    assert_eq!(glyph_lines("Rain")[0], "' '' '");
    assert_eq!(glyph_lines("Snow")[2], "* *  *");
    assert_eq!(glyph_lines("Snow")[3], "      ");
}

#[test]
fn long_city_widens_the_art_column() {
    let lines = render(&report("Sacramento", "Rain"));
    assert_eq!(lines[0], "  ' '' '   | Temperature: 72.5");
    assert_eq!(lines[3], "Sacramento | Wind Speed: 5.1");
}

#[test]
fn width_counts_bytes_of_the_city() {
    let lines = render(&report("Zürich", "Clear"));
    assert_eq!(lines[0], " \\ | /  | Temperature: 72.5");
    assert_eq!(lines[3], "Zürich  | Wind Speed: 5.1");
}

#[test]
fn centering_puts_odd_space_on_the_right() {
    assert_eq!(center("ab", 5), " ab  ");
    assert_eq!(center("ab", 4), " ab ");
    assert_eq!(center("abc", 2), "abc");
    assert_eq!(center("", 3), "   ");
}
