//! The typed weather sample and the parsers that read the feed's fields.

use vstd::prelude::*;

use arrayvec::ArrayString;
use vstd::utf8::*;

use crate::mars::calendar::{
    chrono_date_from_str, chrono_time_from_str, clock_time_of, terrestrial_date_of, CalendarDate, ClockTime,
};
use crate::mars::report::Report;
use crate::mars::season::{fits_label, kept_bytes, label_bytes, season_label};
use crate::mars::text::same_text;

verus! {

/// Compass direction of the wind as the feed reports it.
#[derive(Clone, Copy, Debug, PartialEq, Eq, Structural)]
pub enum WindDirection {
    N,
    NE,
    E,
    SE,
    S,
    SW,
    W,
    NW,
    Unknown,
}

/// The direction that the feed's text `s` names: one of the eight compass
/// points written exactly, anything else `Unknown`.
pub open spec fn wind_direction_of(s: Seq<char>) -> WindDirection {
    if s == "N"@ {
        WindDirection::N
    } else if s == "NE"@ {
        WindDirection::NE
    } else if s == "E"@ {
        WindDirection::E
    } else if s == "SE"@ {
        WindDirection::SE
    } else if s == "S"@ {
        WindDirection::S
    } else if s == "SW"@ {
        WindDirection::SW
    } else if s == "W"@ {
        WindDirection::W
    } else if s == "NW"@ {
        WindDirection::NW
    } else {
        WindDirection::Unknown
    }
}

impl WindDirection {
    /// Reads a wind direction from the feed's text.
    pub fn parse(s: &str) -> (r: Self)
        ensures
            r == wind_direction_of(s@),
    {
        if same_text(s, "N") {
            WindDirection::N
        } else if same_text(s, "NE") {
            WindDirection::NE
        } else if same_text(s, "E") {
            WindDirection::E
        } else if same_text(s, "SE") {
            WindDirection::SE
        } else if same_text(s, "S") {
            WindDirection::S
        } else if same_text(s, "SW") {
            WindDirection::SW
        } else if same_text(s, "W") {
            WindDirection::W
        } else if same_text(s, "NW") {
            WindDirection::NW
        } else {
            WindDirection::Unknown
        }
    }

    /// The text the report shows for this direction.
    pub fn to_string(&self) -> (r: String)
        ensures
            r@ == self.label(),
            *self is N ==> r@ == "N"@,
            *self is NE ==> r@ == "NE"@,
            *self is E ==> r@ == "E"@,
            *self is SE ==> r@ == "SE"@,
            *self is S ==> r@ == "S"@,
            *self is SW ==> r@ == "SW"@,
            *self is W ==> r@ == "W"@,
            *self is NW ==> r@ == "NW"@,
            *self is Unknown ==> r@ == "Unknown"@,
    {
        match self {
            WindDirection::N => "N".to_owned(),
            WindDirection::NE => "NE".to_owned(),
            WindDirection::E => "E".to_owned(),
            WindDirection::SE => "SE".to_owned(),
            WindDirection::S => "S".to_owned(),
            WindDirection::SW => "SW".to_owned(),
            WindDirection::W => "W".to_owned(),
            WindDirection::NW => "NW".to_owned(),
            WindDirection::Unknown => "Unknown".to_owned(),
        }
    }

    /// The label of a direction: its compass abbreviation, or `Unknown`.
    pub open spec fn label(self) -> Seq<char> {
        match self {
            WindDirection::N => "N"@,
            WindDirection::NE => "NE"@,
            WindDirection::E => "E"@,
            WindDirection::SE => "SE"@,
            WindDirection::S => "S"@,
            WindDirection::SW => "SW"@,
            WindDirection::W => "W"@,
            WindDirection::NW => "NW"@,
            WindDirection::Unknown => "Unknown"@,
        }
    }
}

/// Opacity of the atmosphere ("the weather") as the feed reports it.
#[derive(Clone, Copy, Debug, PartialEq, Eq, Structural)]
pub enum AtmoOpacity {
    Sunny,
    Cloudy,
    Dusty,
    Unknown,
}

/// The opacity that the feed's text `s` names; any other text is `Unknown`.
pub open spec fn atmo_opacity_of(s: Seq<char>) -> AtmoOpacity {
    if s == "Sunny"@ {
        AtmoOpacity::Sunny
    } else if s == "Cloudy"@ {
        AtmoOpacity::Cloudy
    } else if s == "Dusty"@ {
        AtmoOpacity::Dusty
    } else {
        AtmoOpacity::Unknown
    }
}

impl AtmoOpacity {
    /// Reads an atmospheric opacity from the feed's text.
    pub fn parse(s: &str) -> (r: Self)
        ensures
            r == atmo_opacity_of(s@),
    {
        if same_text(s, "Sunny") {
            AtmoOpacity::Sunny
        } else if same_text(s, "Cloudy") {
            AtmoOpacity::Cloudy
        } else if same_text(s, "Dusty") {
            AtmoOpacity::Dusty
        } else {
            AtmoOpacity::Unknown
        }
    }

    /// The text the report shows for this opacity.
    pub fn to_string(&self) -> (r: String)
        ensures
            r@ == self.label(),
            *self is Sunny ==> r@ == "Sunny"@,
            *self is Cloudy ==> r@ == "Cloudy"@,
            *self is Dusty ==> r@ == "Dusty"@,
            *self is Unknown ==> r@ == "Unknown"@,
    {
        match self {
            AtmoOpacity::Sunny => "Sunny".to_owned(),
            AtmoOpacity::Cloudy => "Cloudy".to_owned(),
            AtmoOpacity::Dusty => "Dusty".to_owned(),
            AtmoOpacity::Unknown => "Unknown".to_owned(),
        }
    }

    /// The label of an opacity: the name of its variant.
    pub open spec fn label(self) -> Seq<char> {
        match self {
            AtmoOpacity::Sunny => "Sunny"@,
            AtmoOpacity::Cloudy => "Cloudy"@,
            AtmoOpacity::Dusty => "Dusty"@,
            AtmoOpacity::Unknown => "Unknown"@,
        }
    }
}

/// Local ultraviolet irradiance index as the feed reports it.
#[derive(Clone, Copy, Debug, PartialEq, Eq, Structural)]
pub enum UvIndex {
    Low,
    Moderate,
    High,
    VeryHigh,
    Extreme,
    Unknown,
}

/// The index that the feed's text `s` names (the feed writes `Very_High`);
/// any other text is `Unknown`.
pub open spec fn uv_index_of(s: Seq<char>) -> UvIndex {
    if s == "Low"@ {
        UvIndex::Low
    } else if s == "Moderate"@ {
        UvIndex::Moderate
    } else if s == "High"@ {
        UvIndex::High
    } else if s == "Very_High"@ {
        UvIndex::VeryHigh
    } else if s == "Extreme"@ {
        UvIndex::Extreme
    } else {
        UvIndex::Unknown
    }
}

impl UvIndex {
    /// Reads a UV irradiance index from the feed's text.
    pub fn parse(s: &str) -> (r: Self)
        ensures
            r == uv_index_of(s@),
    {
        if same_text(s, "Low") {
            UvIndex::Low
        } else if same_text(s, "Moderate") {
            UvIndex::Moderate
        } else if same_text(s, "High") {
            UvIndex::High
        } else if same_text(s, "Very_High") {
            UvIndex::VeryHigh
        } else if same_text(s, "Extreme") {
            UvIndex::Extreme
        } else {
            UvIndex::Unknown
        }
    }

    /// The text the report shows for this index.
    pub fn to_string(&self) -> (r: String)
        ensures
            r@ == self.label(),
            *self is Low ==> r@ == "Low"@,
            *self is Moderate ==> r@ == "Moderate"@,
            *self is High ==> r@ == "High"@,
            *self is VeryHigh ==> r@ == "Very High"@,
            *self is Extreme ==> r@ == "Extreme"@,
            *self is Unknown ==> r@ == "Unknown"@,
    {
        match self {
            UvIndex::Low => "Low".to_owned(),
            UvIndex::Moderate => "Moderate".to_owned(),
            UvIndex::High => "High".to_owned(),
            UvIndex::VeryHigh => "Very High".to_owned(),
            UvIndex::Extreme => "Extreme".to_owned(),
            UvIndex::Unknown => "Unknown".to_owned(),
        }
    }

    /// The label of an index; `VeryHigh` shows as `Very High`.
    pub open spec fn label(self) -> Seq<char> {
        match self {
            UvIndex::Low => "Low"@,
            UvIndex::Moderate => "Moderate"@,
            UvIndex::High => "High"@,
            UvIndex::VeryHigh => "Very High"@,
            UvIndex::Extreme => "Extreme"@,
            UvIndex::Unknown => "Unknown"@,
        }
    }
}

/// Trend of the atmospheric pressure.
#[derive(Clone, Copy, Debug, PartialEq, Eq, Structural)]
pub enum PressureDirection {
    Rising,
    Falling,
}

/// The trend that the feed's `pressure_string` names: `Higher` is rising,
/// any other text falling.
pub open spec fn pressure_direction_of(s: Seq<char>) -> PressureDirection {
    if s == "Higher"@ {
        PressureDirection::Rising
    } else {
        PressureDirection::Falling
    }
}

impl PressureDirection {
    /// Reads the pressure trend from the feed's `pressure_string` text.
    pub fn parse(s: &str) -> (r: Self)
        ensures
            r == pressure_direction_of(s@),
    {
        if same_text(s, "Higher") {
            PressureDirection::Rising
        } else {
            PressureDirection::Falling
        }
    }

    /// The text the report shows for this trend.
    pub fn to_string(&self) -> (r: String)
        ensures
            r@ == self.label(),
            *self is Rising ==> r@ == "Rising"@,
            *self is Falling ==> r@ == "Falling"@,
    {
        match self {
            PressureDirection::Rising => "Rising".to_owned(),
            PressureDirection::Falling => "Falling".to_owned(),
        }
    }

    /// The label of a trend: the name of its variant.
    pub open spec fn label(self) -> Seq<char> {
        match self {
            PressureDirection::Rising => "Rising"@,
            PressureDirection::Falling => "Falling"@,
        }
    }
}

/// The text a wind direction shows reads back as that direction.
pub proof fn lemma_wind_direction_label_reads_back(d: WindDirection)
    ensures
        wind_direction_of(d.label()) == d,
{
    reveal_strlit("N");
    reveal_strlit("NE");
    reveal_strlit("E");
    reveal_strlit("SE");
    reveal_strlit("S");
    reveal_strlit("SW");
    reveal_strlit("W");
    reveal_strlit("NW");
    reveal_strlit("Unknown");
    assert("N"@.len() != "NE"@.len());
    assert("N"@[0] != "E"@[0]);
    assert("N"@.len() != "SE"@.len());
    assert("N"@[0] != "S"@[0]);
    assert("N"@.len() != "SW"@.len());
    assert("N"@[0] != "W"@[0]);
    assert("N"@.len() != "NW"@.len());
    assert("N"@.len() != "Unknown"@.len());
    assert("NE"@.len() != "E"@.len());
    assert("NE"@[0] != "SE"@[0]);
    assert("NE"@.len() != "S"@.len());
    assert("NE"@[0] != "SW"@[0]);
    assert("NE"@.len() != "W"@.len());
    assert("NE"@[1] != "NW"@[1]);
    assert("NE"@.len() != "Unknown"@.len());
    assert("E"@.len() != "SE"@.len());
    assert("E"@[0] != "S"@[0]);
    assert("E"@.len() != "SW"@.len());
    assert("E"@[0] != "W"@[0]);
    assert("E"@.len() != "NW"@.len());
    assert("E"@.len() != "Unknown"@.len());
    assert("SE"@.len() != "S"@.len());
    assert("SE"@[1] != "SW"@[1]);
    assert("SE"@.len() != "W"@.len());
    assert("SE"@[0] != "NW"@[0]);
    assert("SE"@.len() != "Unknown"@.len());
    assert("S"@.len() != "SW"@.len());
    assert("S"@[0] != "W"@[0]);
    assert("S"@.len() != "NW"@.len());
    assert("S"@.len() != "Unknown"@.len());
    assert("SW"@.len() != "W"@.len());
    assert("SW"@[0] != "NW"@[0]);
    assert("SW"@.len() != "Unknown"@.len());
    assert("W"@.len() != "NW"@.len());
    assert("W"@.len() != "Unknown"@.len());
    assert("NW"@.len() != "Unknown"@.len());
}

/// The text an atmospheric opacity shows reads back as that opacity.
pub proof fn lemma_atmo_opacity_label_reads_back(o: AtmoOpacity)
    ensures
        atmo_opacity_of(o.label()) == o,
{
    reveal_strlit("Sunny");
    reveal_strlit("Cloudy");
    reveal_strlit("Dusty");
    reveal_strlit("Unknown");
    assert("Sunny"@.len() != "Cloudy"@.len());
    assert("Sunny"@[0] != "Dusty"@[0]);
    assert("Sunny"@.len() != "Unknown"@.len());
    assert("Cloudy"@.len() != "Dusty"@.len());
    assert("Cloudy"@.len() != "Unknown"@.len());
    assert("Dusty"@.len() != "Unknown"@.len());
}

/// The text a UV index shows reads back as that index, except `VeryHigh`, which
/// shows as `Very High` while the feed writes `Very_High`.
pub proof fn lemma_uv_index_label_reads_back(u: UvIndex)
    requires
        u != UvIndex::VeryHigh,
    ensures
        uv_index_of(u.label()) == u,
{
    reveal_strlit("Low");
    reveal_strlit("Moderate");
    reveal_strlit("High");
    reveal_strlit("Very_High");
    reveal_strlit("Extreme");
    reveal_strlit("Unknown");
    assert("Low"@.len() != "Moderate"@.len());
    assert("Low"@.len() != "High"@.len());
    assert("Low"@.len() != "Very_High"@.len());
    assert("Low"@.len() != "Extreme"@.len());
    assert("Low"@.len() != "Unknown"@.len());
    assert("Moderate"@.len() != "High"@.len());
    assert("Moderate"@.len() != "Very_High"@.len());
    assert("Moderate"@.len() != "Extreme"@.len());
    assert("Moderate"@.len() != "Unknown"@.len());
    assert("High"@.len() != "Very_High"@.len());
    assert("High"@.len() != "Extreme"@.len());
    assert("High"@.len() != "Unknown"@.len());
    assert("Very_High"@.len() != "Extreme"@.len());
    assert("Very_High"@.len() != "Unknown"@.len());
    assert("Extreme"@[0] != "Unknown"@[0]);
}

/// Only the eight compass words, written exactly, name a direction; every other
/// text reads as `Unknown`.
pub proof fn lemma_wind_direction_words(s: Seq<char>)
    ensures
        wind_direction_of(s) == WindDirection::N <==> s == "N"@,
        wind_direction_of(s) == WindDirection::NE <==> s == "NE"@,
        wind_direction_of(s) == WindDirection::E <==> s == "E"@,
        wind_direction_of(s) == WindDirection::SE <==> s == "SE"@,
        wind_direction_of(s) == WindDirection::S <==> s == "S"@,
        wind_direction_of(s) == WindDirection::SW <==> s == "SW"@,
        wind_direction_of(s) == WindDirection::W <==> s == "W"@,
        wind_direction_of(s) == WindDirection::NW <==> s == "NW"@,
        wind_direction_of(s) == WindDirection::Unknown <==> s != "N"@ && s != "NE"@ && s != "E"@ && s != "SE"@ && s != "S"@ && s != "SW"@ && s != "W"@ && s != "NW"@,
{
    reveal_strlit("N");
    reveal_strlit("NE");
    reveal_strlit("E");
    reveal_strlit("SE");
    reveal_strlit("S");
    reveal_strlit("SW");
    reveal_strlit("W");
    reveal_strlit("NW");
    assert("N"@.len() != "NE"@.len());
    assert("N"@[0] != "E"@[0]);
    assert("N"@.len() != "SE"@.len());
    assert("N"@[0] != "S"@[0]);
    assert("N"@.len() != "SW"@.len());
    assert("N"@[0] != "W"@[0]);
    assert("N"@.len() != "NW"@.len());
    assert("NE"@.len() != "E"@.len());
    assert("NE"@[0] != "SE"@[0]);
    assert("NE"@.len() != "S"@.len());
    assert("NE"@[0] != "SW"@[0]);
    assert("NE"@.len() != "W"@.len());
    assert("NE"@[1] != "NW"@[1]);
    assert("E"@.len() != "SE"@.len());
    assert("E"@[0] != "S"@[0]);
    assert("E"@.len() != "SW"@.len());
    assert("E"@[0] != "W"@[0]);
    assert("E"@.len() != "NW"@.len());
    assert("SE"@.len() != "S"@.len());
    assert("SE"@[1] != "SW"@[1]);
    assert("SE"@.len() != "W"@.len());
    assert("SE"@[0] != "NW"@[0]);
    assert("S"@.len() != "SW"@.len());
    assert("S"@[0] != "W"@[0]);
    assert("S"@.len() != "NW"@.len());
    assert("SW"@.len() != "W"@.len());
    assert("SW"@[0] != "NW"@[0]);
    assert("W"@.len() != "NW"@.len());
}

/// Only `Sunny`, `Cloudy` and `Dusty`, written exactly, name an opacity; every
/// other text reads as `Unknown`.
pub proof fn lemma_atmo_opacity_words(s: Seq<char>)
    ensures
        atmo_opacity_of(s) == AtmoOpacity::Sunny <==> s == "Sunny"@,
        atmo_opacity_of(s) == AtmoOpacity::Cloudy <==> s == "Cloudy"@,
        atmo_opacity_of(s) == AtmoOpacity::Dusty <==> s == "Dusty"@,
        atmo_opacity_of(s) == AtmoOpacity::Unknown <==> s != "Sunny"@ && s != "Cloudy"@ && s != "Dusty"@,
{
    reveal_strlit("Sunny");
    reveal_strlit("Cloudy");
    reveal_strlit("Dusty");
    assert("Sunny"@.len() != "Cloudy"@.len());
    assert("Sunny"@[0] != "Dusty"@[0]);
    assert("Cloudy"@.len() != "Dusty"@.len());
}

/// Only the feed's five words (`Low`, `Moderate`, `High`, `Very_High`,
/// `Extreme`), written exactly, name an index; every other text reads as `Unknown`.
pub proof fn lemma_uv_index_words(s: Seq<char>)
    ensures
        uv_index_of(s) == UvIndex::Low <==> s == "Low"@,
        uv_index_of(s) == UvIndex::Moderate <==> s == "Moderate"@,
        uv_index_of(s) == UvIndex::High <==> s == "High"@,
        uv_index_of(s) == UvIndex::VeryHigh <==> s == "Very_High"@,
        uv_index_of(s) == UvIndex::Extreme <==> s == "Extreme"@,
        uv_index_of(s) == UvIndex::Unknown <==> s != "Low"@ && s != "Moderate"@ && s != "High"@ && s != "Very_High"@ && s != "Extreme"@,
{
    reveal_strlit("Low");
    reveal_strlit("Moderate");
    reveal_strlit("High");
    reveal_strlit("Very_High");
    reveal_strlit("Extreme");
    assert("Low"@.len() != "Moderate"@.len());
    assert("Low"@.len() != "High"@.len());
    assert("Low"@.len() != "Very_High"@.len());
    assert("Low"@.len() != "Extreme"@.len());
    assert("Moderate"@.len() != "High"@.len());
    assert("Moderate"@.len() != "Very_High"@.len());
    assert("Moderate"@.len() != "Extreme"@.len());
    assert("High"@.len() != "Very_High"@.len());
    assert("High"@.len() != "Extreme"@.len());
    assert("Very_High"@.len() != "Extreme"@.len());
}

/// Only the exact word `Higher` reads as a rising pressure; every other text
/// reads as falling.
pub proof fn lemma_pressure_direction_words(s: Seq<char>)
    ensures
        pressure_direction_of(s) == PressureDirection::Rising <==> s == "Higher"@,
        pressure_direction_of(s) == PressureDirection::Falling <==> s != "Higher"@,
{
}

/// Each direction shows as its compass abbreviation, and an unread one as
/// `Unknown`.
pub proof fn lemma_wind_direction_labels()
    ensures
        WindDirection::N.label() == "N"@,
        WindDirection::NE.label() == "NE"@,
        WindDirection::E.label() == "E"@,
        WindDirection::SE.label() == "SE"@,
        WindDirection::S.label() == "S"@,
        WindDirection::SW.label() == "SW"@,
        WindDirection::W.label() == "W"@,
        WindDirection::NW.label() == "NW"@,
        WindDirection::Unknown.label() == "Unknown"@,
{
}

/// Each opacity shows as its own name, and an unread one as `Unknown`.
pub proof fn lemma_atmo_opacity_labels()
    ensures
        AtmoOpacity::Sunny.label() == "Sunny"@,
        AtmoOpacity::Cloudy.label() == "Cloudy"@,
        AtmoOpacity::Dusty.label() == "Dusty"@,
        AtmoOpacity::Unknown.label() == "Unknown"@,
{
}

/// Each UV index shows as its own name (`VeryHigh` as `Very High`), and an
/// unread one as `Unknown`.
pub proof fn lemma_uv_index_labels()
    ensures
        UvIndex::Low.label() == "Low"@,
        UvIndex::Moderate.label() == "Moderate"@,
        UvIndex::High.label() == "High"@,
        UvIndex::VeryHigh.label() == "Very High"@,
        UvIndex::Extreme.label() == "Extreme"@,
        UvIndex::Unknown.label() == "Unknown"@,
{
}

/// A pressure trend shows as `Rising` or `Falling`.
pub proof fn lemma_pressure_direction_labels()
    ensures
        PressureDirection::Rising.label() == "Rising"@,
        PressureDirection::Falling.label() == "Falling"@,
{
}

/// The sol that a weather report covers: the feed lists the latest sol first,
/// so it is the first of `soles`, and there is none when the list is empty.
pub fn latest_sol<T>(soles: &[T]) -> (r: Option<&T>)
    ensures
        soles@.len() == 0 ==> r is None,
        soles@.len() > 0 ==> (r matches Some(x) && *x == soles@[0]),
{
    if soles.len() == 0 {
        None
    } else {
        Some(&soles[0])
    }
}

/// How the weather loader treats the HTTP status of the feed's answer.
#[derive(Clone, Copy, Debug, PartialEq, Eq, Structural)]
pub enum FeedStatus {
    /// `200 OK`: the body is read as the feed's JSON.
    Accepted,
    /// `413 Payload Too Large`, reported as such.
    PayloadTooLarge,
    /// Any other status, reported as unexpected.
    Unexpected(u16),
}

impl FeedStatus {
    /// Sorts the HTTP status code of the feed's answer.
    pub fn classify(code: u16) -> (r: FeedStatus)
        ensures
            code == 200 ==> r == FeedStatus::Accepted,
            code == 413 ==> r == FeedStatus::PayloadTooLarge,
            code != 200 && code != 413 ==> r == FeedStatus::Unexpected(code),
    {
        if code == 200 {
            FeedStatus::Accepted
        } else if code == 413 {
            FeedStatus::PayloadTooLarge
        } else {
            FeedStatus::Unexpected(code)
        }
    }
}

/// The text of the field `key` of a record: `None` when the record has no
/// such field or when the field is not a string.
pub open spec fn string_field(record: Map<Seq<char>, Option<Seq<char>>>, key: Seq<char>) -> Option<Seq<char>> {
    if record.contains_key(key) {
        record[key]
    } else {
        None
    }
}

/// Reads a categorical field that is kept whenever the record has it: its text,
/// or the empty text when it is not a string, read by `read`.
pub open spec fn present_field<T>(
    record: Map<Seq<char>, Option<Seq<char>>>,
    key: Seq<char>,
    read: spec_fn(Seq<char>) -> T,
) -> Option<T> {
    if record.contains_key(key) {
        match record[key] {
            Some(t) => Some(read(t)),
            None => Some(read(Seq::empty())),
        }
    } else {
        None
    }
}

/// Reads a field that is kept only when it is a string, by `read`.
pub open spec fn text_field<T>(
    record: Map<Seq<char>, Option<Seq<char>>>,
    key: Seq<char>,
    read: spec_fn(Seq<char>) -> Option<T>,
) -> Option<T> {
    match string_field(record, key) {
        Some(t) => read(t),
        None => None,
    }
}

/// The season text of a record can be cut to a label without a panic.
pub open spec fn season_fits(record: Map<Seq<char>, Option<Seq<char>>>) -> bool {
    string_field(record, "season"@) matches Some(t) ==> fits_label(t) && encode_utf8(t).len() <= usize::MAX
}

/// The measurements of a sol that the feed gives as numbers. Each real number is
/// held as the bit pattern of its IEEE 754 binary64 value (what `f64::to_bits`
/// gives); the sol number and the season number are already whole.
#[derive(Clone, Copy, Debug, PartialEq, Eq, Structural)]
pub struct Readings {
    pub sol: u32,
    pub min_temp: Option<u64>,
    pub max_temp: Option<u64>,
    pub min_ground_temp: Option<u64>,
    pub max_ground_temp: Option<u64>,
    pub pressure: Option<u64>,
    pub mars_season: Option<i32>,
    pub abs_humidity: Option<u64>,
    pub wind_speed: Option<u64>,
}

/// One sol of Curiosity's surface weather. Temperatures are in degrees Celsius;
/// real-valued measurements are held as `f64` bit patterns, as in [`Readings`].
/// A missing reading (the feed's `"--"`) is `None`.
#[derive(Clone, Copy, Debug)]
pub struct WeatherSample {
    pub terrestrial_date: Option<CalendarDate>,
    pub sol: u32,
    pub min_temp: Option<u64>,
    pub max_temp: Option<u64>,
    pub min_ground_temp: Option<u64>,
    pub max_ground_temp: Option<u64>,
    pub pressure: Option<u64>,
    pub pressure_change_direction: Option<PressureDirection>,
    pub mars_season: Option<i32>,
    pub abs_humidity: Option<u64>,
    pub wind_speed: Option<u64>,
    pub wind_direction: Option<WindDirection>,
    pub atmo_opacity: Option<AtmoOpacity>,
    pub uv_index: Option<UvIndex>,
    pub season: Option<ArrayString<32>>,
    pub sunrise: Option<ClockTime>,
    pub sunset: Option<ClockTime>,
}

impl WeatherSample {
    /// Reads one sol of the feed from the text fields of its record and its
    /// numeric readings.
    ///
    /// The terrestrial date is read as `%Y-%m-%d`, sunrise and sunset as `%H:%M`;
    /// a field that is missing, not a string or not readable is `None`. Wind
    /// direction and atmospheric opacity are kept whenever the field is there
    /// (a non-string reads as `Unknown`); the UV index only when it is a string.
    /// The pressure trend is rising when `pressure_string` is `Higher`, falling
    /// for any other string. The season label keeps the first 32 bytes of its
    /// text.
    pub fn parse(report: &Report, readings: Readings) -> (r: WeatherSample)
        requires
            season_fits(report.view()),
        ensures
            r.terrestrial_date == text_field(report.view(), "terrestrial_date"@, |t: Seq<char>| terrestrial_date_of(t)),
            r.sol == readings.sol,
            r.min_temp == readings.min_temp,
            r.max_temp == readings.max_temp,
            r.min_ground_temp == readings.min_ground_temp,
            r.max_ground_temp == readings.max_ground_temp,
            r.pressure == readings.pressure,
            r.pressure_change_direction == text_field(report.view(), "pressure_string"@, |t: Seq<char>| Some(pressure_direction_of(t))),
            r.mars_season == readings.mars_season,
            r.abs_humidity == readings.abs_humidity,
            r.wind_speed == readings.wind_speed,
            r.wind_direction == present_field(report.view(), "wind_direction"@, |t: Seq<char>| wind_direction_of(t)),
            r.atmo_opacity == present_field(report.view(), "atmo_opacity"@, |t: Seq<char>| atmo_opacity_of(t)),
            r.uv_index == text_field(report.view(), "local_uv_irradiance_index"@, |t: Seq<char>| Some(uv_index_of(t))),
            r.season is Some <==> string_field(report.view(), "season"@) is Some,
            r.season matches Some(label) ==> label_bytes(label) == kept_bytes(string_field(report.view(), "season"@).unwrap()),
            r.sunrise == text_field(report.view(), "sunrise"@, |t: Seq<char>| clock_time_of(t)),
            r.sunset == text_field(report.view(), "sunset"@, |t: Seq<char>| clock_time_of(t)),
            string_field(report.view(), "terrestrial_date"@) matches Some(t) ==> r.terrestrial_date == (
            match chrono_date_from_str(t, "%Y-%m-%d"@) {
                Some((y, m, d)) => Some(CalendarDate { year: y, month: m, day: d }),
                None => None,
            }),
            string_field(report.view(), "terrestrial_date"@) is None ==> r.terrestrial_date is None,
            string_field(report.view(), "sunrise"@) matches Some(t) ==> r.sunrise == (
            match chrono_time_from_str(t, "%H:%M"@) {
                Some((h, m, s, n)) => Some(ClockTime { hour: h, minute: m, second: s, nanosecond: n }),
                None => None,
            }),
            string_field(report.view(), "sunset"@) matches Some(t) ==> r.sunset == (
            match chrono_time_from_str(t, "%H:%M"@) {
                Some((h, m, s, n)) => Some(ClockTime { hour: h, minute: m, second: s, nanosecond: n }),
                None => None,
            }),
            string_field(report.view(), "local_uv_irradiance_index"@) matches Some(t) ==> r.uv_index == Some(
                uv_index_of(t),
            ),
            string_field(report.view(), "local_uv_irradiance_index"@) is None ==> r.uv_index is None,
            string_field(report.view(), "pressure_string"@) matches Some(t) ==> r.pressure_change_direction
                == Some(if t == "Higher"@ { PressureDirection::Rising } else { PressureDirection::Falling }),
            string_field(report.view(), "pressure_string"@) is None ==> r.pressure_change_direction is None,
            report.view().contains_key("wind_direction"@) ==> r.wind_direction == Some(
                wind_direction_of(
                    match report.view()["wind_direction"@] {
                        Some(t) => t,
                        None => Seq::empty(),
                    },
                ),
            ),
            !report.view().contains_key("wind_direction"@) ==> r.wind_direction is None,
            report.view().contains_key("atmo_opacity"@) ==> r.atmo_opacity == Some(
                atmo_opacity_of(
                    match report.view()["atmo_opacity"@] {
                        Some(t) => t,
                        None => Seq::empty(),
                    },
                ),
            ),
            !report.view().contains_key("atmo_opacity"@) ==> r.atmo_opacity is None,
    {
        proof {
            reveal_strlit("");
            assert(""@ =~= Seq::<char>::empty());
        }
        let terrestrial_date: Option<CalendarDate> = match report.text("terrestrial_date") {
            Some(t) => CalendarDate::parse(t),
            None => None,
        };
        let pressure_change_direction: Option<PressureDirection> = match report.text("pressure_string") {
            Some(t) => Some(PressureDirection::parse(t)),
            None => None,
        };
        let wind_direction: Option<WindDirection> = match report.get("wind_direction") {
            Some(f) => match f.as_text() {
                Some(t) => Some(WindDirection::parse(t)),
                None => Some(WindDirection::parse("")),
            },
            None => None,
        };
        let atmo_opacity: Option<AtmoOpacity> = match report.get("atmo_opacity") {
            Some(f) => match f.as_text() {
                Some(t) => Some(AtmoOpacity::parse(t)),
                None => Some(AtmoOpacity::parse("")),
            },
            None => None,
        };
        let uv_index: Option<UvIndex> = match report.text("local_uv_irradiance_index") {
            Some(t) => Some(UvIndex::parse(t)),
            None => None,
        };
        let season: Option<ArrayString<32>> = match report.text("season") {
            Some(t) => Some(season_label(t)),
            None => None,
        };
        let sunrise: Option<ClockTime> = match report.text("sunrise") {
            Some(t) => ClockTime::parse(t),
            None => None,
        };
        let sunset: Option<ClockTime> = match report.text("sunset") {
            Some(t) => ClockTime::parse(t),
            None => None,
        };
        WeatherSample {
            terrestrial_date,
            sol: readings.sol,
            min_temp: readings.min_temp,
            max_temp: readings.max_temp,
            min_ground_temp: readings.min_ground_temp,
            max_ground_temp: readings.max_ground_temp,
            pressure: readings.pressure,
            pressure_change_direction,
            mars_season: readings.mars_season,
            abs_humidity: readings.abs_humidity,
            wind_speed: readings.wind_speed,
            wind_direction,
            atmo_opacity,
            uv_index,
            season,
            sunrise,
            sunset,
        }
    }
}

} // verus!
