//! A live status store for position-fix telemetry: per-field latest values
//! whose freshness is judged when they are read.

pub mod clock;
pub mod slot;
pub mod fields;
pub mod decode;
pub mod status;
pub mod render;
pub mod source;

pub use clock::{clamp_reading, Clock, DEFAULT_TIMEOUT_NANOS, NANOS_PER_SEC};
pub use decode::{decode_line, fix_label, gga_sentence, parse_sentence, GgaFields};
pub use fields::{FixLabel, Reading, Sentence, Snapshot};
pub use render::{
    is_quit, step, tick_period_nanos, InputEvent, Key, LoopAction, LoopEvent, LoopState,
    DEFAULT_TICK_RATE_HZ,
};
pub use slot::StatusValue;
pub use source::{select_source, InputSource, SourceType};
pub use status::NmeaStatus;
