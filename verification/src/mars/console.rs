//! The choices of the console weather report that involve no measurement value.

use vstd::prelude::*;

use crate::mars::weather::{PressureDirection, UvIndex, WindDirection};

verus! {

/// The report's line on the pressure trend.
pub open spec fn pressure_trend_text(trend: Option<PressureDirection>) -> Seq<char> {
    match trend {
        Some(PressureDirection::Rising) => "Atmospheric pressure is rising."@,
        Some(PressureDirection::Falling) => "Atmospheric pressure is falling."@,
        None => "No pressure change direction data available"@,
    }
}

/// The report's line on the UV index: the index's label, or that there is none.
pub open spec fn uv_text(uv: Option<UvIndex>) -> Seq<char> {
    match uv {
        Some(u) => "UV irradiance index: "@ + u.label(),
        None => "No UV data available"@,
    }
}

/// The pressure line says that the pressure is rising, that it is falling, or,
/// with no trend, that there is no data on it.
pub proof fn lemma_pressure_trend_lines()
    ensures
        pressure_trend_text(Some(PressureDirection::Rising)) == "Atmospheric pressure is rising."@,
        pressure_trend_text(Some(PressureDirection::Falling)) == "Atmospheric pressure is falling."@,
        pressure_trend_text(None) == "No pressure change direction data available"@,
{
}

/// For every UV index, the UV line is `UV irradiance index: ` followed by the
/// text that index shows (its `to_string`); with no index it says that there is
/// no UV data.
pub proof fn lemma_uv_line_names_its_index(u: UvIndex)
    ensures
        uv_text(Some(u)) == "UV irradiance index: "@ + u.label(),
        uv_text(None) == "No UV data available"@,
{
}

/// The report's line on the pressure trend.
pub fn pressure_trend_line(trend: Option<PressureDirection>) -> (r: String)
    ensures
        r@ == pressure_trend_text(trend),
        trend == Some(PressureDirection::Rising) ==> r@ == "Atmospheric pressure is rising."@,
        trend == Some(PressureDirection::Falling) ==> r@ == "Atmospheric pressure is falling."@,
        trend is None ==> r@ == "No pressure change direction data available"@,
{
    match trend {
        Some(PressureDirection::Rising) => "Atmospheric pressure is rising.".to_owned(),
        Some(PressureDirection::Falling) => "Atmospheric pressure is falling.".to_owned(),
        None => "No pressure change direction data available".to_owned(),
    }
}

/// The report's line on the UV index.
pub fn uv_line(uv: Option<UvIndex>) -> (r: String)
    ensures
        r@ == uv_text(uv),
        forall|u: UvIndex| uv == Some(u) ==> r@ == "UV irradiance index: "@ + #[trigger] u.label(),
        uv is None ==> r@ == "No UV data available"@,
{
    match uv {
        Some(u) => {
            let mut line: String = "UV irradiance index: ".to_owned();
            let label: String = u.to_string();
            line.append(label.as_str());
            line
        },
        None => "No UV data available".to_owned(),
    }
}

/// The wind the report shows: speed (as `f64` bits) and direction, only when
/// both were read; otherwise the report says that there is no wind data.
pub fn wind_shown(speed: Option<u64>, direction: Option<WindDirection>) -> (r: Option<(u64, WindDirection)>)
    ensures
        r == (match (speed, direction) {
            (Some(s), Some(d)) => Some((s, d)),
            _ => None,
        }),
{
    match (speed, direction) {
        (Some(s), Some(d)) => Some((s, d)),
        _ => None,
    }
}

} // verus!
