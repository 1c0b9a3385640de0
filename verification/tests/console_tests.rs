use mars_data::mars::console::{pressure_trend_line, uv_line, wind_shown};
use mars_data::mars::weather::{PressureDirection, UvIndex, WindDirection};

#[test]
fn pressure_trend_lines() {
    assert_eq!(pressure_trend_line(Some(PressureDirection::Rising)), "Atmospheric pressure is rising.");
    assert_eq!(pressure_trend_line(Some(PressureDirection::Falling)), "Atmospheric pressure is falling.");
    assert_eq!(pressure_trend_line(None), "No pressure change direction data available");
}

#[test]
fn uv_lines_show_the_label() {
    assert_eq!(uv_line(Some(UvIndex::Moderate)), "UV irradiance index: Moderate");
    assert_eq!(uv_line(Some(UvIndex::VeryHigh)), "UV irradiance index: Very High");
    assert_eq!(uv_line(None), "No UV data available");
}

#[test]
fn wind_needs_speed_and_direction() {
    let speed: u64 = 12.0f64.to_bits();
    assert_eq!(wind_shown(Some(speed), Some(WindDirection::NW)), Some((speed, WindDirection::NW)));
    assert_eq!(wind_shown(Some(5.0f64.to_bits()), None), None);
    assert_eq!(wind_shown(None, Some(WindDirection::N)), None);
    assert_eq!(wind_shown(None, None), None);
}
