//! The tracked fields: their value types, a decoded sentence, and a snapshot.
use vstd::prelude::*;

verus! {

/// A floating-point reading held as its IEEE-754 bit pattern, in the width the
/// decoder reported it.
#[derive(Clone, Copy, Debug, PartialEq, Eq, Structural)]
pub enum Reading {
    /// A double-precision value.
    Double(u64),
    /// A single-precision value.
    Single(u32),
}

/// The quality of a position fix.
#[derive(Clone, Copy, Debug, PartialEq, Eq, Structural)]
pub enum FixLabel {
    Invalid,
    Gps,
    DGps,
    Pps,
    Rtk,
    FloatRtk,
    Estimated,
    Manual,
    Simulation,
}

impl FixLabel {
    /// The label's display name.
    pub open spec fn name_spec(self) -> Seq<char> {
        match self {
            FixLabel::Invalid => "Invalid"@,
            FixLabel::Gps => "Gps"@,
            FixLabel::DGps => "DGps"@,
            FixLabel::Pps => "Pps"@,
            FixLabel::Rtk => "Rtk"@,
            FixLabel::FloatRtk => "FloatRtk"@,
            FixLabel::Estimated => "Estimated"@,
            FixLabel::Manual => "Manual"@,
            FixLabel::Simulation => "Simulation"@,
        }
    }

    /// The label's display name.
    pub fn name(&self) -> (r: &'static str)
        ensures
            r@ == self.name_spec(),
    {
        match self {
            FixLabel::Invalid => "Invalid",
            FixLabel::Gps => "Gps",
            FixLabel::DGps => "DGps",
            FixLabel::Pps => "Pps",
            FixLabel::Rtk => "Rtk",
            FixLabel::FloatRtk => "FloatRtk",
            FixLabel::Estimated => "Estimated",
            FixLabel::Manual => "Manual",
            FixLabel::Simulation => "Simulation",
        }
    }
}

/// The tracked fields that one recognized sentence carries. For each field,
/// `None` means the sentence does not carry it; `Some(v)` means it does, with
/// `v` the value or an explicit absence.
#[derive(Clone, Copy, Debug, PartialEq, Eq, Structural)]
pub struct Sentence {
    pub lat: Option<Option<Reading>>,
    pub lon: Option<Option<Reading>>,
    pub alt: Option<Option<Reading>>,
    pub hdg: Option<Option<Reading>>,
    pub sog: Option<Option<Reading>>,
    pub cog: Option<Option<Reading>>,
    pub fix_type: Option<Option<FixLabel>>,
}

impl Sentence {
    /// A fix report: carries position, altitude and fix quality, and nothing else.
    pub fn position_fix(
        lat: Option<Reading>,
        lon: Option<Reading>,
        alt: Option<Reading>,
        fix_type: Option<FixLabel>,
    ) -> (r: Sentence)
        ensures
            r == (Sentence {
                lat: Some(lat),
                lon: Some(lon),
                alt: Some(alt),
                hdg: None,
                sog: None,
                cog: None,
                fix_type: Some(fix_type),
            }),
    {
        Sentence {
            lat: Some(lat),
            lon: Some(lon),
            alt: Some(alt),
            hdg: None,
            sog: None,
            cog: None,
            fix_type: Some(fix_type),
        }
    }
}

/// What one read of the store shows: each field's value if it is fresh, else `None`.
#[derive(Clone, Copy, Debug, PartialEq, Eq, Structural)]
pub struct Snapshot {
    pub lat: Option<Reading>,
    pub lon: Option<Reading>,
    pub alt: Option<Reading>,
    pub hdg: Option<Reading>,
    pub sog: Option<Reading>,
    pub cog: Option<Reading>,
    pub fix_type: Option<FixLabel>,
}

} // verus!
