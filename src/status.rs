//! The status store: one slot per tracked field, written by ingestion and read
//! by rendering, with freshness judged at read time.
use crate::clock::{nanos_of, Clock};
use crate::decode::{decode_line, decoded, lemma_decoded_carries_no_motion, trimmed_end};
use crate::fields::{FixLabel, Reading, Sentence, Snapshot};
use crate::slot::{lemma_written, StatusValue};
use std::time::Duration;
use vstd::prelude::*;

verus! {

broadcast use lemma_written;

/// A slot after a sentence that carries `carried` for it: written if carried,
/// else left as it was.
pub open spec fn slot_after<T>(slot: StatusValue<T>, carried: Option<Option<T>>, now: u64) -> StatusValue<T> {
    match carried {
        Some(v) => slot.written(v, now),
        None => slot,
    }
}

/// The slot was last written no later than `latest`.
pub open spec fn written_by<T>(slot: StatusValue<T>, latest: u64) -> bool {
    match slot.written_at() {
        Some(t) => t <= latest,
        None => true,
    }
}

/// The slot's last write is no earlier than the one `before` had.
pub open spec fn not_earlier<T>(before: StatusValue<T>, after: StatusValue<T>) -> bool {
    match (before.written_at(), after.written_at()) {
        (Some(a), Some(b)) => a <= b,
        (Some(_), None) => false,
        _ => true,
    }
}

/// What a read of `slot` at `now` shows, as an owned value.
fn shown<T: Copy>(slot: &StatusValue<T>, now: u64) -> (r: Option<T>)
    ensures
        r == slot.visible_at(now),
{
    match slot.get(now) {
        Some(v) => Some(*v),
        None => None,
    }
}

/// The latest value of each tracked field, with one staleness timeout for all.
pub struct NmeaStatus {
    lat: StatusValue<Reading>,
    lon: StatusValue<Reading>,
    alt: StatusValue<Reading>,
    hdg: StatusValue<Reading>,
    sog: StatusValue<Reading>,
    cog: StatusValue<Reading>,
    fix_type: StatusValue<FixLabel>,
    clock: Clock,
}

impl NmeaStatus {
    pub closed spec fn lat(&self) -> StatusValue<Reading> {
        self.lat
    }

    pub closed spec fn lon(&self) -> StatusValue<Reading> {
        self.lon
    }

    pub closed spec fn alt(&self) -> StatusValue<Reading> {
        self.alt
    }

    pub closed spec fn hdg(&self) -> StatusValue<Reading> {
        self.hdg
    }

    pub closed spec fn sog(&self) -> StatusValue<Reading> {
        self.sog
    }

    pub closed spec fn cog(&self) -> StatusValue<Reading> {
        self.cog
    }

    pub closed spec fn fix_type(&self) -> StatusValue<FixLabel> {
        self.fix_type
    }

    /// The latest time the store has seen, in nanoseconds since it was made.
    pub closed spec fn latest(&self) -> u64 {
        self.clock.latest()
    }

    /// The staleness timeout shared by all fields, in nanoseconds.
    pub open spec fn timeout(&self) -> u64 {
        self.lat().timeout()
    }

    /// All slots share one timeout, and none was written after the latest time seen.
    pub open spec fn wf(&self) -> bool {
        &&& self.lon().timeout() == self.timeout()
        &&& self.alt().timeout() == self.timeout()
        &&& self.hdg().timeout() == self.timeout()
        &&& self.sog().timeout() == self.timeout()
        &&& self.cog().timeout() == self.timeout()
        &&& self.fix_type().timeout() == self.timeout()
        &&& written_by(self.lat(), self.latest())
        &&& written_by(self.lon(), self.latest())
        &&& written_by(self.alt(), self.latest())
        &&& written_by(self.hdg(), self.latest())
        &&& written_by(self.sog(), self.latest())
        &&& written_by(self.cog(), self.latest())
        &&& written_by(self.fix_type(), self.latest())
    }

    /// No field has been written yet: each holds no value and no write time.
    pub open spec fn never_written(&self) -> bool {
        &&& self.lat().value() is None
        &&& self.lon().value() is None
        &&& self.alt().value() is None
        &&& self.hdg().value() is None
        &&& self.sog().value() is None
        &&& self.cog().value() is None
        &&& self.fix_type().value() is None
        &&& self.lat().written_at() is None
        &&& self.lon().written_at() is None
        &&& self.alt().written_at() is None
        &&& self.hdg().written_at() is None
        &&& self.sog().written_at() is None
        &&& self.cog().written_at() is None
        &&& self.fix_type().written_at() is None
    }

    /// What a read at `now` shows.
    pub open spec fn view_at(&self, now: u64) -> Snapshot {
        Snapshot {
            lat: self.lat().visible_at(now),
            lon: self.lon().visible_at(now),
            alt: self.alt().visible_at(now),
            hdg: self.hdg().visible_at(now),
            sog: self.sog().visible_at(now),
            cog: self.cog().visible_at(now),
            fix_type: self.fix_type().visible_at(now),
        }
    }

    /// `self` is `before` with sentence `s` written at `now`: each carried field
    /// is overwritten, every other slot is left exactly as it was.
    pub open spec fn is_applied(&self, before: Self, s: Sentence, now: u64) -> bool {
        &&& self.lat() == slot_after(before.lat(), s.lat, now)
        &&& self.lon() == slot_after(before.lon(), s.lon, now)
        &&& self.alt() == slot_after(before.alt(), s.alt, now)
        &&& self.hdg() == slot_after(before.hdg(), s.hdg, now)
        &&& self.sog() == slot_after(before.sog(), s.sog, now)
        &&& self.cog() == slot_after(before.cog(), s.cog, now)
        &&& self.fix_type() == slot_after(before.fix_type(), s.fix_type, now)
        &&& self.latest() == now
    }

    /// No slot's last write moved back in time from `before` to `self`.
    pub open spec fn writes_not_earlier(&self, before: Self) -> bool {
        &&& not_earlier(before.lat(), self.lat())
        &&& not_earlier(before.lon(), self.lon())
        &&& not_earlier(before.alt(), self.alt())
        &&& not_earlier(before.hdg(), self.hdg())
        &&& not_earlier(before.sog(), self.sog())
        &&& not_earlier(before.cog(), self.cog())
        &&& not_earlier(before.fix_type(), self.fix_type())
    }

    /// `self` is `before` after ingesting `line`: unchanged if the line holds
    /// no recognized sentence, else with that sentence written at a time no
    /// earlier than any before.
    pub open spec fn is_ingested(&self, before: Self, line: Seq<char>) -> bool {
        match decoded(trimmed_end(line)) {
            None => *self == before,
            Some(s) => self.latest() >= before.latest() && self.is_applied(before, s, self.latest()),
        }
    }

    /// A store whose fields were never written, with a timeout in nanoseconds.
    pub fn with_timeout_nanos(timeout: u64) -> (r: NmeaStatus)
        ensures
            r.wf(),
            r.timeout() == timeout,
            r.never_written(),
            r.latest() == 0,
    {
        NmeaStatus {
            lat: StatusValue::with_timeout_nanos(timeout),
            lon: StatusValue::with_timeout_nanos(timeout),
            alt: StatusValue::with_timeout_nanos(timeout),
            hdg: StatusValue::with_timeout_nanos(timeout),
            sog: StatusValue::with_timeout_nanos(timeout),
            cog: StatusValue::with_timeout_nanos(timeout),
            fix_type: StatusValue::with_timeout_nanos(timeout),
            clock: Clock::start(),
        }
    }

    /// A store whose fields were never written; a write stays fresh for `timeout`.
    pub fn new(timeout: Duration) -> (r: NmeaStatus)
        ensures
            r.wf(),
            r.timeout() == nanos_of(timeout),
            r.never_written(),
            r.latest() == 0,
    {
        let nanos = crate::clock::duration_nanos(&timeout);
        Self::with_timeout_nanos(nanos)
    }

    /// Writes the fields that `s` carries, stamped with `now`, and leaves the others.
    pub fn apply_at(&mut self, s: &Sentence, now: u64)
        requires
            old(self).wf(),
            now >= old(self).latest(),
        ensures
            final(self).wf(),
            final(self).timeout() == old(self).timeout(),
            final(self).is_applied(*old(self), *s, now),
            final(self).writes_not_earlier(*old(self)),
    {
        if let Some(v) = s.lat {
            self.lat.update(v, now);
        }
        if let Some(v) = s.lon {
            self.lon.update(v, now);
        }
        if let Some(v) = s.alt {
            self.alt.update(v, now);
        }
        if let Some(v) = s.hdg {
            self.hdg.update(v, now);
        }
        if let Some(v) = s.sog {
            self.sog.update(v, now);
        }
        if let Some(v) = s.cog {
            self.cog.update(v, now);
        }
        if let Some(v) = s.fix_type {
            self.fix_type.update(v, now);
        }
        self.clock.record(now);
    }

    /// Writes the fields that `s` carries, stamped with the current time.
    pub fn apply(&mut self, s: &Sentence)
        requires
            old(self).wf(),
        ensures
            final(self).wf(),
            final(self).timeout() == old(self).timeout(),
            final(self).latest() >= old(self).latest(),
            final(self).is_applied(*old(self), *s, final(self).latest()),
            final(self).writes_not_earlier(*old(self)),
    {
        let now = self.clock.read();
        self.apply_at(s, now);
    }

    /// Decodes `line` and, if it is a recognized sentence, writes what it
    /// carries at the current time; any other line leaves the store as it was.
    pub fn ingest(&mut self, line: &str)
        requires
            old(self).wf(),
        ensures
            final(self).wf(),
            final(self).timeout() == old(self).timeout(),
            final(self).writes_not_earlier(*old(self)),
            final(self).is_ingested(*old(self), line@),
    {
        if let Some(s) = decode_line(line) {
            self.apply(&s);
        }
    }

    /// The fields as a read at `now` shows them.
    pub fn snapshot_at(&self, now: u64) -> (r: Snapshot)
        ensures
            r == self.view_at(now),
    {
        Snapshot {
            lat: shown(&self.lat, now),
            lon: shown(&self.lon, now),
            alt: shown(&self.alt, now),
            hdg: shown(&self.hdg, now),
            sog: shown(&self.sog, now),
            cog: shown(&self.cog, now),
            fix_type: shown(&self.fix_type, now),
        }
    }

    /// The fields as a read at the current time shows them; that time is no
    /// earlier than any write.
    pub fn snapshot(&self) -> (r: Snapshot)
        requires
            self.wf(),
        ensures
            exists|now: u64| now >= self.latest() && r == #[trigger] self.view_at(now),
    {
        let now = self.clock.read();
        self.snapshot_at(now)
    }
}

} // verus!

verus! {

/// Writing a sentence leaves every field it does not carry exactly as it was:
/// same value, same time of last write.
pub proof fn lemma_selective_update(before: NmeaStatus, after: NmeaStatus, s: Sentence, now: u64)
    requires
        after.is_applied(before, s, now),
    ensures
        s.lat is None ==> after.lat() == before.lat(),
        s.lon is None ==> after.lon() == before.lon(),
        s.alt is None ==> after.alt() == before.alt(),
        s.hdg is None ==> after.hdg() == before.hdg(),
        s.sog is None ==> after.sog() == before.sog(),
        s.cog is None ==> after.cog() == before.cog(),
        s.fix_type is None ==> after.fix_type() == before.fix_type(),
{
}

/// A store none of whose fields was ever written shows every field as absent,
/// whenever it is read.
pub proof fn lemma_never_written_shows_nothing(st: NmeaStatus, now: u64)
    requires
        st.never_written(),
    ensures
        st.view_at(now) == (Snapshot {
            lat: None,
            lon: None,
            alt: None,
            hdg: None,
            sog: None,
            cog: None,
            fix_type: None,
        }),
{
}

} // verus!

verus! {

/// Lines that hold no recognized sentence change nothing, however many are
/// ingested in a row.
pub proof fn lemma_undecodable_lines_keep_store(states: Seq<NmeaStatus>, lines: Seq<Seq<char>>)
    requires
        states.len() == lines.len() + 1,
        forall|i: int| 0 <= i < lines.len() ==> #[trigger] states[i + 1].is_ingested(states[i], lines[i]),
        forall|i: int| 0 <= i < lines.len() ==> decoded(trimmed_end(#[trigger] lines[i])) is None,
    ensures
        states.last() == states[0],
    decreases lines.len(),
{
    if lines.len() > 0 {
        let n = lines.len() - 1;
        assert(states[n + 1].is_ingested(states[n], lines[n]));
        lemma_undecodable_lines_keep_store(states.drop_last(), lines.drop_last());
        assert(states.drop_last().last() == states[n]);
    }
}

/// A line that holds no recognized sentence does not stop ingestion: the
/// recognized sentence of the next line is written just as if the first line
/// had never come.
pub proof fn lemma_ingestion_continues_after_bad_line(
    s0: NmeaStatus,
    s1: NmeaStatus,
    s2: NmeaStatus,
    bad: Seq<char>,
    good: Seq<char>,
    s: Sentence,
)
    requires
        s1.is_ingested(s0, bad),
        s2.is_ingested(s1, good),
        decoded(trimmed_end(bad)) is None,
        decoded(trimmed_end(good)) == Some(s),
    ensures
        s2.latest() >= s0.latest(),
        s2.is_applied(s0, s, s2.latest()),
{
}

/// Ingesting a line writes only the fields its sentence carries: every other
/// field keeps its value and time of last write. Heading, speed and course over
/// ground are never carried by a recognized sentence.
pub proof fn lemma_ingest_is_selective(before: NmeaStatus, after: NmeaStatus, line: Seq<char>)
    requires
        after.is_ingested(before, line),
    ensures
        after.hdg() == before.hdg(),
        after.sog() == before.sog(),
        after.cog() == before.cog(),
        decoded(trimmed_end(line)) matches Some(s) ==> {
            &&& s.lat is None ==> after.lat() == before.lat()
            &&& s.lon is None ==> after.lon() == before.lon()
            &&& s.alt is None ==> after.alt() == before.alt()
            &&& s.fix_type is None ==> after.fix_type() == before.fix_type()
        },
{
    lemma_decoded_carries_no_motion(trimmed_end(line));
}

/// A sentence carrying only latitude and longitude writes both at `now` and
/// leaves altitude, with its time of last write, as it was.
pub proof fn lemma_position_only_update(before: NmeaStatus, after: NmeaStatus, s: Sentence, now: u64)
    requires
        after.is_applied(before, s, now),
        s.lat matches Some(_),
        s.lon matches Some(_),
        s.alt is None,
    ensures
        after.alt() == before.alt(),
        Some(after.lat().value()) == s.lat,
        Some(after.lon().value()) == s.lon,
        after.lat().written_at() == Some(now),
        after.lon().written_at() == Some(now),
{
}

} // verus!
