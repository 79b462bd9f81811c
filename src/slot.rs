//! One tracked field: its last value, when it was written, and the rule that
//! decides whether it is still fresh.
use crate::clock::{duration_nanos, nanos_of, DEFAULT_TIMEOUT_NANOS};
use std::time::Duration;
use vstd::prelude::*;

verus! {

/// Time passed from `written` to `now`, taken as zero if the clock reads earlier.
pub open spec fn age(written: u64, now: u64) -> nat {
    if now >= written {
        (now - written) as nat
    } else {
        0
    }
}

/// A write made at `written` is fresh at `now` while its age is under `timeout`.
pub open spec fn is_fresh(written: u64, now: u64, timeout: u64) -> bool {
    age(written, now) < timeout
}

/// A field's slot: the value last written (possibly an explicit absence), the
/// time of that write (`None` before the first), and the staleness timeout.
#[derive(Debug)]
pub struct StatusValue<T> {
    inner: Option<T>,
    updated_at: Option<u64>,
    timeout: u64,
}

impl<T> StatusValue<T> {
    /// The value last written.
    pub closed spec fn value(&self) -> Option<T> {
        self.inner
    }

    /// The time of the last write, `None` if there was none.
    pub closed spec fn written_at(&self) -> Option<u64> {
        self.updated_at
    }

    /// How long a write stays fresh, in nanoseconds.
    pub closed spec fn timeout(&self) -> u64 {
        self.timeout
    }

    /// What a read at `now` shows: the value, if there is one and it is fresh.
    pub open spec fn visible_at(&self, now: u64) -> Option<T> {
        match (self.value(), self.written_at()) {
            (Some(v), Some(t)) => if is_fresh(t, now, self.timeout()) {
                Some(v)
            } else {
                None
            },
            _ => None,
        }
    }

    /// The slot after writing `next` at `now`: value and time are replaced together.
    pub closed spec fn written(self, next: Option<T>, now: u64) -> Self {
        StatusValue { inner: next, updated_at: Some(now), timeout: self.timeout }
    }

    /// An empty, never-written slot with the given timeout in nanoseconds.
    pub fn with_timeout_nanos(timeout: u64) -> (r: StatusValue<T>)
        ensures
            r.value() is None,
            r.written_at() is None,
            r.timeout() == timeout,
    {
        StatusValue { inner: None, updated_at: None, timeout }
    }

    /// An empty, never-written slot whose writes stay fresh for `timeout`.
    pub fn new(timeout: Duration) -> (r: StatusValue<T>)
        ensures
            r.value() is None,
            r.written_at() is None,
            r.timeout() == nanos_of(timeout),
    {
        Self::with_timeout_nanos(duration_nanos(&timeout))
    }

    /// Overwrites the value with `next` and stamps the write with `now`.
    pub fn update(&mut self, next: Option<T>, now: u64)
        ensures
            *final(self) == old(self).written(next, now),
            final(self).value() == next,
            final(self).written_at() == Some(now),
            final(self).timeout() == old(self).timeout(),
    {
        self.inner = next;
        self.updated_at = Some(now);
    }

    /// The value, if one was written and the write is still fresh at `now`.
    pub fn get(&self, now: u64) -> (r: Option<&T>)
        ensures
            r.is_some() == self.visible_at(now).is_some(),
            r matches Some(v) ==> self.visible_at(now) == Some(*v),
    {
        match (&self.inner, self.updated_at) {
            (Some(v), Some(t)) => {
                let age: u64 = if now >= t { now - t } else { 0 };
                if age < self.timeout {
                    Some(v)
                } else {
                    None
                }
            }
            _ => None,
        }
    }
}

impl<T> StatusValue<T> {
    /// Once a value is written at `t` and not overwritten, every read at a time
    /// in `[t, t + timeout)` shows it, and every read from `t + timeout` on shows
    /// nothing.
    pub proof fn lemma_staleness_window(s: Self, v: T, t: u64, now: u64)
        requires
            s.value() == Some(v),
            s.written_at() == Some(t),
        ensures
            t <= now < t + s.timeout() ==> s.visible_at(now) == Some(v),
            now >= t + s.timeout() ==> s.visible_at(now) is None,
    {
    }

    /// Of two writes in a row, only the second is left: its value, and its time
    /// as the time of the last write.
    pub proof fn lemma_overwrite(s: Self, first: Option<T>, t1: u64, second: Option<T>, t2: u64)
        ensures
            s.written(first, t1).written(second, t2) == s.written(second, t2),
            s.written(first, t1).written(second, t2).value() == second,
            s.written(first, t1).written(second, t2).written_at() == Some(t2),
    {
    }
}

/// A write sets the value and the time of the write, and keeps the timeout.
pub broadcast proof fn lemma_written<T>(s: StatusValue<T>, next: Option<T>, now: u64)
    ensures
        (#[trigger] s.written(next, now)).value() == next,
        s.written(next, now).written_at() == Some(now),
        s.written(next, now).timeout() == s.timeout(),
{
}

impl<T> Default for StatusValue<T> {
    /// An empty, never-written slot with the default timeout.
    fn default() -> (r: Self)
        ensures
            r.value() is None,
            r.written_at() is None,
            r.timeout() == DEFAULT_TIMEOUT_NANOS,
    {
        StatusValue { inner: None, updated_at: None, timeout: DEFAULT_TIMEOUT_NANOS }
    }
}

} // verus!
