use nmea::sentences::FixType;
use nmea_status::{decode_line, fix_label, gga_sentence, parse_sentence, FixLabel, GgaFields, Reading, Sentence};

const GGA: &str = "$GPGGA,092750.000,5321.6802,N,00630.3372,W,1,8,1.03,61.7,M,55.2,M,,*76";

fn as_f64(r: Option<Option<Reading>>) -> f64 {
    match r {
        Some(Some(Reading::Double(bits))) => f64::from_bits(bits),
        other => panic!("not a double reading: {:?}", other),
    }
}

#[test]
fn gga_line_decodes_to_position_fix() {
    let s = decode_line(GGA).expect("a GGA line is recognized");
    assert!((as_f64(s.lat) - (53.0 + 21.6802 / 60.0)).abs() < 1e-9);
    assert!((as_f64(s.lon) + (6.0 + 30.3372 / 60.0)).abs() < 1e-9);
    assert_eq!(s.alt, Some(Some(Reading::Single(61.7f32.to_bits()))));
    assert_eq!(s.fix_type, Some(Some(FixLabel::Gps)));
    assert_eq!(s.hdg, None);
    assert_eq!(s.sog, None);
    assert_eq!(s.cog, None);
}

#[test]
fn trailing_line_ending_is_ignored() {
    let with_crlf = format!("{}\r\n", GGA);
    assert_eq!(decode_line(&with_crlf), decode_line(GGA));
    assert!(decode_line(&with_crlf).is_some());
}

#[test]
fn empty_gga_fields_are_explicit_absences() {
    let s = decode_line("$GPGGA,,,,,,0,,,,,,,,*66").expect("recognized");
    assert_eq!(s, Sentence::position_fix(None, None, None, Some(FixLabel::Invalid)));
}

#[test]
fn malformed_line_is_not_recognized() {
    assert_eq!(decode_line("$GPXXX,garbage*00"), None);
    assert_eq!(decode_line(""), None);
    assert_eq!(decode_line("not a sentence"), None);
}

#[test]
fn bad_checksum_is_not_recognized() {
    let bad = "$GPGGA,092750.000,5321.6802,N,00630.3372,W,1,8,1.03,61.7,M,55.2,M,,*77";
    assert_eq!(decode_line(bad), None);
}

#[test]
fn other_sentence_types_are_ignored() {
    let rmc = "$GPRMC,225446.33,A,4916.45,N,12311.12,W,000.5,054.7,191194,020.3,E,A*2B";
    assert_eq!(decode_line(rmc), None);
}

#[test]
fn fix_qualities_map_one_to_one() {
    assert_eq!(fix_label(FixType::Invalid), FixLabel::Invalid);
    assert_eq!(fix_label(FixType::Gps), FixLabel::Gps);
    assert_eq!(fix_label(FixType::DGps), FixLabel::DGps);
    assert_eq!(fix_label(FixType::Pps), FixLabel::Pps);
    assert_eq!(fix_label(FixType::Rtk), FixLabel::Rtk);
    assert_eq!(fix_label(FixType::FloatRtk), FixLabel::FloatRtk);
    assert_eq!(fix_label(FixType::Estimated), FixLabel::Estimated);
    assert_eq!(fix_label(FixType::Manual), FixLabel::Manual);
    assert_eq!(fix_label(FixType::Simulation), FixLabel::Simulation);
}

#[test]
fn fix_label_names() {
    assert_eq!(FixLabel::Invalid.name(), "Invalid");
    assert_eq!(FixLabel::DGps.name(), "DGps");
    assert_eq!(FixLabel::FloatRtk.name(), "FloatRtk");
    assert_eq!(FixLabel::Simulation.name(), "Simulation");
}

#[test]
fn gga_fields_become_position_fix() {
    let g = GgaFields { lat: Some(1.5f64.to_bits()), lon: None, alt: Some(2.0f32.to_bits()), fix_type: Some(FixType::Rtk) };
    let s = gga_sentence(&g);
    assert_eq!(s.lat, Some(Some(Reading::Double(1.5f64.to_bits()))));
    assert_eq!(s.lon, Some(None));
    assert_eq!(s.alt, Some(Some(Reading::Single(2.0f32.to_bits()))));
    assert_eq!(s.fix_type, Some(Some(FixLabel::Rtk)));
    assert_eq!((s.hdg, s.sog, s.cog), (None, None, None));
}

#[test]
fn parse_sentence_needs_exact_line() {
    assert!(parse_sentence(GGA).is_some());
    assert_eq!(parse_sentence("$GPXXX,garbage*00"), None);
}
