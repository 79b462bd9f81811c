//! Where telemetry lines come from.
use vstd::prelude::*;

verus! {

/// The kind of line source asked for.
#[derive(Clone, Copy, Debug, Default, PartialEq, Eq, Structural)]
pub enum SourceType {
    #[default]
    File,
    Stdin,
}

impl SourceType {
    /// The source kind's name.
    pub open spec fn name_spec(self) -> Seq<char> {
        match self {
            SourceType::File => "file"@,
            SourceType::Stdin => "stdin"@,
        }
    }

    /// The source kind's name.
    pub fn name(&self) -> (r: &'static str)
        ensures
            r@ == self.name_spec(),
    {
        match self {
            SourceType::File => "file",
            SourceType::Stdin => "stdin",
        }
    }
}

/// The line source to read from.
#[derive(Debug, PartialEq, Eq)]
pub enum InputSource {
    /// The file at this path.
    File(String),
    /// The standard input stream.
    Stdin,
}

/// A file is read when one is named and the kind is `File`; otherwise standard input.
pub fn select_source(path: Option<String>, kind: SourceType) -> (r: InputSource)
    ensures
        r == (match (path, kind) {
            (Some(p), SourceType::File) => InputSource::File(p),
            _ => InputSource::Stdin,
        }),
{
    match (path, kind) {
        (Some(p), SourceType::File) => InputSource::File(p),
        _ => InputSource::Stdin,
    }
}

} // verus!
