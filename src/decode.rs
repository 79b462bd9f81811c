//! Turning a telemetry line into the tracked fields it carries.
use crate::fields::{FixLabel, Reading, Sentence};
use nmea::sentences::FixType;
use nmea::ParseResult;
use vstd::prelude::*;

verus! {

#[verifier::external_type_specification]
pub struct ExFixType(FixType);

/// The line with trailing whitespace removed, as `str::trim_end` gives it.
pub uninterp spec fn trimmed_end(s: Seq<char>) -> Seq<char>;

/// The fields of a GGA (fix data) sentence that the library tracks, as the
/// decoder reported them: latitude and longitude as double-precision bit
/// patterns, altitude as a single-precision one.
#[derive(Clone, Copy, Debug, PartialEq, Eq)]
pub struct GgaFields {
    pub lat: Option<u64>,
    pub lon: Option<u64>,
    pub alt: Option<u32>,
    pub fix_type: Option<FixType>,
}

/// What `nmea::parse_str` makes of a line: the tracked fields of a GGA
/// sentence whose checksum holds, or `None` for any other line.
pub uninterp spec fn parsed_gga(line: Seq<char>) -> Option<GgaFields>;

/// Relies on `str::trim_end`: a prefix of `s` without its trailing whitespace.
#[verifier::external_body]
fn trim_end(s: &str) -> (r: &str)
    ensures
        r@ == trimmed_end(s@),
        r@ == s@.subrange(0, r@.len() as int),
{
    s.trim_end()
}

/// Relies on `nmea::parse_str`: the GGA fields of the line, if it is a GGA
/// sentence that decodes; `None` for every other outcome.
#[verifier::external_body]
fn parse_gga(line: &str) -> (r: Option<GgaFields>)
    ensures
        r == parsed_gga(line@),
{
    match nmea::parse_str(line) {
        Ok(ParseResult::GGA(gga)) => Some(GgaFields {
            lat: gga.latitude.map(|v| v.to_bits()),
            lon: gga.longitude.map(|v| v.to_bits()),
            alt: gga.altitude.map(|v| v.to_bits()),
            fix_type: gga.fix_type,
        }),
        _ => None,
    }
}

/// The label that stands for the decoder's fix quality, one for one.
pub fn fix_label(t: FixType) -> (r: FixLabel)
    ensures
        r == fix_label_spec(t),
{
    match t {
        FixType::Invalid => FixLabel::Invalid,
        FixType::Gps => FixLabel::Gps,
        FixType::DGps => FixLabel::DGps,
        FixType::Pps => FixLabel::Pps,
        FixType::Rtk => FixLabel::Rtk,
        FixType::FloatRtk => FixLabel::FloatRtk,
        FixType::Estimated => FixLabel::Estimated,
        FixType::Manual => FixLabel::Manual,
        FixType::Simulation => FixLabel::Simulation,
    }
}

/// The label that stands for the decoder's fix quality.
pub open spec fn fix_label_spec(t: FixType) -> FixLabel {
    match t {
        FixType::Invalid => FixLabel::Invalid,
        FixType::Gps => FixLabel::Gps,
        FixType::DGps => FixLabel::DGps,
        FixType::Pps => FixLabel::Pps,
        FixType::Rtk => FixLabel::Rtk,
        FixType::FloatRtk => FixLabel::FloatRtk,
        FixType::Estimated => FixLabel::Estimated,
        FixType::Manual => FixLabel::Manual,
        FixType::Simulation => FixLabel::Simulation,
    }
}

/// The sentence a GGA report stands for: position, altitude and fix quality
/// are carried (each possibly as an explicit absence); heading, speed and
/// course over ground are not.
pub open spec fn gga_sentence_spec(g: GgaFields) -> Sentence {
    Sentence {
        lat: Some(
            match g.lat {
                Some(b) => Some(Reading::Double(b)),
                None => None,
            },
        ),
        lon: Some(
            match g.lon {
                Some(b) => Some(Reading::Double(b)),
                None => None,
            },
        ),
        alt: Some(
            match g.alt {
                Some(b) => Some(Reading::Single(b)),
                None => None,
            },
        ),
        hdg: None,
        sog: None,
        cog: None,
        fix_type: Some(
            match g.fix_type {
                Some(t) => Some(fix_label_spec(t)),
                None => None,
            },
        ),
    }
}

/// The sentence a GGA report stands for.
pub fn gga_sentence(g: &GgaFields) -> (r: Sentence)
    ensures
        r == gga_sentence_spec(*g),
{
    let lat = match g.lat {
        Some(b) => Some(Reading::Double(b)),
        None => None,
    };
    let lon = match g.lon {
        Some(b) => Some(Reading::Double(b)),
        None => None,
    };
    let alt = match g.alt {
        Some(b) => Some(Reading::Single(b)),
        None => None,
    };
    let fix_type = match g.fix_type {
        Some(t) => Some(fix_label(t)),
        None => None,
    };
    Sentence::position_fix(lat, lon, alt, fix_type)
}

/// The recognized sentence in a line, if any: only GGA sentences are recognized.
pub open spec fn decoded(line: Seq<char>) -> Option<Sentence> {
    match parsed_gga(line) {
        Some(g) => Some(gga_sentence_spec(g)),
        None => None,
    }
}

/// The recognized sentence in a line: GGA sentences only.
pub fn parse_sentence(line: &str) -> (r: Option<Sentence>)
    ensures
        r == decoded(line@),
{
    match parse_gga(line) {
        Some(g) => Some(gga_sentence(&g)),
        None => None,
    }
}

/// A recognized sentence never carries heading, speed or course over ground.
pub proof fn lemma_decoded_carries_no_motion(line: Seq<char>)
    ensures
        decoded(line) matches Some(s) ==> s.hdg is None && s.sog is None && s.cog is None,
{
}

/// Distinct fix qualities get distinct labels.
pub proof fn lemma_fix_label_one_to_one(a: FixType, b: FixType)
    ensures
        fix_label_spec(a) == fix_label_spec(b) ==> a == b,
{
}

/// The tracked fields that a line carries: trailing whitespace is dropped and
/// the rest is decoded.
pub fn decode_line(line: &str) -> (r: Option<Sentence>)
    ensures
        r == decoded(trimmed_end(line@)),
{
    parse_sentence(trim_end(line))
}

} // verus!
