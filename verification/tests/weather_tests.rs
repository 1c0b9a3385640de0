use arrayvec::ArrayString;
use mars_data::mars::calendar::{CalendarDate, ClockTime};
use mars_data::mars::report::{Field, Report};
use mars_data::mars::season::season_label;
use mars_data::mars::weather::{
    latest_sol, AtmoOpacity, FeedStatus, PressureDirection, Readings, UvIndex, WeatherSample, WindDirection,
};

fn text(s: &str) -> Field {
    return Field::Text(s.to_string());
}

fn no_readings() -> Readings {
    return Readings {
        sol: 0,
        min_temp: None,
        max_temp: None,
        min_ground_temp: None,
        max_ground_temp: None,
        pressure: None,
        mars_season: None,
        abs_humidity: None,
        wind_speed: None,
    };
}

fn report_with(key: &str, field: Field) -> Report {
    let mut report: Report = Report::new();
    report.insert(key, field);
    return report;
}

#[test]
fn parse_full_report_populates_all_fields() {
    let mut report: Report = Report::new();
    for (key, value) in [
        ("terrestrial_date", "2025-09-10"),
        ("sol", "100"),
        ("min_temp", "-80"),
        ("max_temp", "-10"),
        ("min_gts_temp", "-96"),
        ("max_gts_temp", "10"),
        ("pressure", "750"),
        ("pressure_string", "Higher"),
        ("ls", "5"),
        ("abs_humidity", "0.3"),
        ("wind_speed", "12"),
        ("wind_direction", "NW"),
        ("atmo_opacity", "Sunny"),
        ("local_uv_irradiance_index", "Moderate"),
        ("season", "month 5"),
        ("sunrise", "06:00"),
        ("sunset", "18:00"),
    ] {
        report.insert(key, text(value));
    }
    // The numeric readings of this record, as the feed's numbers read them.
    let readings: Readings = Readings {
        sol: 100,
        min_temp: Some((-80.0f64).to_bits()),
        max_temp: Some((-10.0f64).to_bits()),
        min_ground_temp: Some((-96.0f64).to_bits()),
        max_ground_temp: Some(10.0f64.to_bits()),
        pressure: Some(750.0f64.to_bits()),
        mars_season: Some(5),
        abs_humidity: Some(0.3f64.to_bits()),
        wind_speed: Some(12.0f64.to_bits()),
    };

    let sample: WeatherSample = WeatherSample::parse(&report, readings);

    assert_eq!(sample.terrestrial_date, Some(CalendarDate { year: 2025, month: 9, day: 10 }));
    assert_eq!(sample.sol, 100);
    assert_eq!(sample.pressure.map(f64::from_bits), Some(750.0));
    assert_eq!(sample.pressure_change_direction, Some(PressureDirection::Rising));
    assert_eq!(sample.mars_season, Some(5));
    assert_eq!(sample.abs_humidity.map(f64::from_bits), Some(0.3));
    assert_eq!(sample.wind_speed.map(f64::from_bits), Some(12.0));
    assert_eq!(sample.wind_direction, Some(WindDirection::NW));
    assert_eq!(sample.atmo_opacity, Some(AtmoOpacity::Sunny));
    assert_eq!(sample.uv_index, Some(UvIndex::Moderate));
    assert_eq!(sample.season, Some(ArrayString::from("month 5").unwrap()));
    assert_eq!(sample.sunrise, Some(ClockTime { hour: 6, minute: 0, second: 0, nanosecond: 0 }));
    assert_eq!(sample.sunset, Some(ClockTime { hour: 18, minute: 0, second: 0, nanosecond: 0 }));
    assert_eq!(sample.min_temp.map(f64::from_bits), Some(-80.0));
    assert_eq!(sample.max_temp.map(f64::from_bits), Some(-10.0));
    assert_eq!(sample.min_ground_temp.map(f64::from_bits), Some(-96.0));
    assert_eq!(sample.max_ground_temp.map(f64::from_bits), Some(10.0));
}

#[test]
fn parse_empty_report_uses_defaults() {
    let sample: WeatherSample = WeatherSample::parse(&Report::new(), no_readings());

    assert_eq!(sample.terrestrial_date, None);
    assert_eq!(sample.sol, 0);
    assert!(sample.min_temp.is_none());
    assert!(sample.max_temp.is_none());
    assert!(sample.min_ground_temp.is_none());
    assert!(sample.max_ground_temp.is_none());
    assert!(sample.pressure.is_none());
    assert!(sample.pressure_change_direction.is_none());
    assert!(sample.mars_season.is_none());
    assert!(sample.abs_humidity.is_none());
    assert!(sample.wind_speed.is_none());
    assert!(sample.wind_direction.is_none());
    assert!(sample.atmo_opacity.is_none());
    assert!(sample.uv_index.is_none());
    assert!(sample.season.is_none());
    assert!(sample.sunrise.is_none());
    assert!(sample.sunset.is_none());
}

#[test]
fn parse_pressure_string_lower_is_falling() {
    let report: Report = report_with("pressure_string", text("Lower"));
    let sample: WeatherSample = WeatherSample::parse(&report, no_readings());
    assert_eq!(sample.pressure_change_direction, Some(PressureDirection::Falling));
}

#[test]
fn parse_unavailable_wind_direction_maps_to_unknown() {
    let report: Report = report_with("wind_direction", text("--"));
    let sample: WeatherSample = WeatherSample::parse(&report, no_readings());
    assert_eq!(sample.wind_direction, Some(WindDirection::Unknown));
}

#[test]
fn parse_invalid_terrestrial_date_yields_none() {
    // The feed gave the number 42, not a string.
    let report: Report = report_with("terrestrial_date", Field::Other);
    let sample: WeatherSample = WeatherSample::parse(&report, no_readings());
    assert_eq!(sample.terrestrial_date, None);
}

#[test]
fn parse_all_wind_directions() {
    for (s, expected) in [
        ("N", WindDirection::N),
        ("NE", WindDirection::NE),
        ("E", WindDirection::E),
        ("SE", WindDirection::SE),
        ("S", WindDirection::S),
        ("SW", WindDirection::SW),
        ("W", WindDirection::W),
        ("NW", WindDirection::NW),
        ("X", WindDirection::Unknown),
    ] {
        let report: Report = report_with("wind_direction", text(s));
        assert_eq!(WeatherSample::parse(&report, no_readings()).wind_direction, Some(expected));
    }
}

#[test]
fn parse_all_atmo_opacity_variants() {
    for (s, expected) in [
        ("Sunny", AtmoOpacity::Sunny),
        ("Cloudy", AtmoOpacity::Cloudy),
        ("Dusty", AtmoOpacity::Dusty),
        ("Foggy", AtmoOpacity::Unknown),
    ] {
        let report: Report = report_with("atmo_opacity", text(s));
        assert_eq!(WeatherSample::parse(&report, no_readings()).atmo_opacity, Some(expected));
    }
}

#[test]
fn parse_all_uv_index_variants() {
    for (s, expected) in [
        ("Low", UvIndex::Low),
        ("Moderate", UvIndex::Moderate),
        ("High", UvIndex::High),
        ("Very_High", UvIndex::VeryHigh),
        ("Extreme", UvIndex::Extreme),
        ("Blinding", UvIndex::Unknown),
    ] {
        let report: Report = report_with("local_uv_irradiance_index", text(s));
        assert_eq!(WeatherSample::parse(&report, no_readings()).uv_index, Some(expected));
    }
}

#[test]
fn non_string_wind_and_opacity_read_as_unknown() {
    let mut report: Report = Report::new();
    report.insert("wind_direction", Field::Other);
    report.insert("atmo_opacity", Field::Other);
    let sample: WeatherSample = WeatherSample::parse(&report, no_readings());
    assert_eq!(sample.wind_direction, Some(WindDirection::Unknown));
    assert_eq!(sample.atmo_opacity, Some(AtmoOpacity::Unknown));
}

#[test]
fn non_string_uv_season_and_times_are_dropped() {
    let mut report: Report = Report::new();
    report.insert("local_uv_irradiance_index", Field::Other);
    report.insert("season", Field::Other);
    report.insert("sunrise", Field::Other);
    report.insert("sunset", Field::Other);
    report.insert("pressure_string", Field::Other);
    let sample: WeatherSample = WeatherSample::parse(&report, no_readings());
    assert!(sample.uv_index.is_none());
    assert!(sample.season.is_none());
    assert!(sample.sunrise.is_none());
    assert!(sample.sunset.is_none());
    assert!(sample.pressure_change_direction.is_none());
}

#[test]
fn unreadable_date_and_times_are_none() {
    let mut report: Report = Report::new();
    report.insert("terrestrial_date", text("2025-13-01"));
    report.insert("sunrise", text("06:00:00"));
    report.insert("sunset", text("25:00"));
    let sample: WeatherSample = WeatherSample::parse(&report, no_readings());
    assert_eq!(sample.terrestrial_date, None);
    assert_eq!(sample.sunrise, None);
    assert_eq!(sample.sunset, None);
}

#[test]
fn calendar_date_reads_leap_day_and_rejects_invalid_day() {
    assert_eq!(CalendarDate::parse("2024-02-29"), Some(CalendarDate { year: 2024, month: 2, day: 29 }));
    assert_eq!(CalendarDate::parse("2025-02-29"), None);
    assert_eq!(CalendarDate::parse("not a date"), None);
}

#[test]
fn clock_time_reads_hours_and_minutes() {
    assert_eq!(ClockTime::parse("23:59"), Some(ClockTime { hour: 23, minute: 59, second: 0, nanosecond: 0 }));
    assert_eq!(ClockTime::parse("12:60"), None);
}

#[test]
fn season_label_keeps_first_32_bytes() {
    let long: &str = "a season name much longer than thirty-two bytes";
    let label: ArrayString<32> = season_label(long);
    assert_eq!(label.as_str(), &long[..32]);
    assert_eq!(label.len(), 32);
    assert_eq!(season_label("month 5").as_str(), "month 5");
    assert_eq!(season_label("").as_str(), "");
}

#[test]
fn season_label_cuts_at_character_boundary() {
    // 30 ASCII bytes, then a two-byte character that ends at byte 32.
    let text: String = format!("{}é and more", "x".repeat(30));
    let label: ArrayString<32> = season_label(&text);
    assert_eq!(label.as_str(), &text[..32]);
    assert!(label.as_str().ends_with('é'));
}

#[test]
fn season_field_is_cut_in_parse() {
    let report: Report = report_with("season", text("month 5, early northern autumn on Mars"));
    let sample: WeatherSample = WeatherSample::parse(&report, no_readings());
    assert_eq!(sample.season.unwrap().as_str(), "month 5, early northern autumn o");
}

#[test]
fn enum_parsers_require_exact_names() {
    assert_eq!(WindDirection::parse("nw"), WindDirection::Unknown);
    assert_eq!(WindDirection::parse(""), WindDirection::Unknown);
    assert_eq!(AtmoOpacity::parse("sunny"), AtmoOpacity::Unknown);
    assert_eq!(UvIndex::parse("Very High"), UvIndex::Unknown);
    assert_eq!(PressureDirection::parse("Higher"), PressureDirection::Rising);
    assert_eq!(PressureDirection::parse("higher"), PressureDirection::Falling);
}

#[test]
fn labels_read_back_as_their_values() {
    for d in [
        WindDirection::N,
        WindDirection::NE,
        WindDirection::E,
        WindDirection::SE,
        WindDirection::S,
        WindDirection::SW,
        WindDirection::W,
        WindDirection::NW,
        WindDirection::Unknown,
    ] {
        assert_eq!(WindDirection::parse(&d.to_string()), d);
    }
    for o in [AtmoOpacity::Sunny, AtmoOpacity::Cloudy, AtmoOpacity::Dusty, AtmoOpacity::Unknown] {
        assert_eq!(AtmoOpacity::parse(&o.to_string()), o);
    }
    assert_eq!(UvIndex::VeryHigh.to_string(), "Very High");
    assert_eq!(UvIndex::parse(&UvIndex::Extreme.to_string()), UvIndex::Extreme);
}

#[test]
fn display_texts_match_variant_names() {
    assert_eq!(WindDirection::SW.to_string(), "SW");
    assert_eq!(WindDirection::Unknown.to_string(), "Unknown");
    assert_eq!(AtmoOpacity::Dusty.to_string(), "Dusty");
    assert_eq!(UvIndex::Low.to_string(), "Low");
    assert_eq!(PressureDirection::Rising.to_string(), "Rising");
    assert_eq!(PressureDirection::Falling.to_string(), "Falling");
}

#[test]
fn feed_status_sorts_codes() {
    assert_eq!(FeedStatus::classify(200), FeedStatus::Accepted);
    assert_eq!(FeedStatus::classify(413), FeedStatus::PayloadTooLarge);
    assert_eq!(FeedStatus::classify(404), FeedStatus::Unexpected(404));
    assert_eq!(FeedStatus::classify(500), FeedStatus::Unexpected(500));
}

#[test]
fn report_insert_replaces_and_get_finds() {
    let mut report: Report = Report::new();
    assert!(report.get("season").is_none());
    report.insert("season", text("month 4"));
    report.insert("sol", Field::Other);
    report.insert("season", text("month 5"));
    assert_eq!(report.text("season"), Some("month 5"));
    assert_eq!(report.get("sol"), Some(&Field::Other));
    assert_eq!(report.text("sol"), None);
    assert_eq!(report.text("wind"), None);
}

#[test]
fn latest_sol_is_first_listed() {
    let soles: Vec<u32> = vec![4700, 4699, 4698];
    assert_eq!(latest_sol(&soles), Some(&4700));
    let none: Vec<u32> = Vec::new();
    assert_eq!(latest_sol(&none), None);
}
