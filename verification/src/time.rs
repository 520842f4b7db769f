//! Points in time, as the date fields of a form hold them.

use std::time::{SystemTime, UNIX_EPOCH};
use vstd::prelude::*;
use crate::text::{is_text, string_of};

verus! {

/// A point in time, given by its distance from the Unix epoch.
#[derive(Clone, Copy, Debug, PartialEq, Eq, Structural)]
pub struct Timestamp {
    /// The point lies before the epoch.
    pub before_epoch: bool,
    /// Whole seconds between the epoch and the point.
    pub secs: u64,
    /// Nanoseconds beyond the whole seconds.
    pub nanos: u32,
}

impl DeepView for Timestamp {
    type V = Timestamp;

    open spec fn deep_view(&self) -> Timestamp {
        *self
    }
}

/// Names what `humantime` reads from a text as an RFC 3339 timestamp in its weak
/// form (`2018-02-14 00:28:07`, with `T`, a fraction of a second and `Z`
/// optional): the seconds and nanoseconds since the Unix epoch, or nothing where
/// it rejects the text. The text alone decides it, for one build of the crate.
pub uninterp spec fn rfc3339_weak(text: Seq<char>) -> Option<(u64, u32)>;

/// Calls the `FromStr` impl of `humantime::Timestamp`, which is
/// `humantime::parse_rfc3339_weak`, and gives the time that it read as seconds
/// and nanoseconds since the Unix epoch. Nothing is proved of it: the contract
/// names the result, and states that the nanoseconds stay below one second, as
/// `Duration::subsec_nanos` promises.
#[verifier::external_body]
fn read_rfc3339_weak(text: &str) -> (r: Option<(u64, u32)>)
    ensures
        r == rfc3339_weak(text@),
        r matches Some(t) ==> t.1 < 1_000_000_000,
{
    let parsed = text.parse::<humantime::Timestamp>().ok()?;
    let since = SystemTime::from(parsed).duration_since(UNIX_EPOCH).ok()?;
    Some((since.as_secs(), since.subsec_nanos()))
}

/// Calls `SystemTime::now` of the standard library and gives the time as its
/// distance from the Unix epoch. Nothing is known of the result but that its
/// nanoseconds stay below one second.
#[verifier::external_body]
fn read_clock() -> (t: Timestamp)
    ensures
        t.well_formed(),
{
    match SystemTime::now().duration_since(UNIX_EPOCH) {
        Ok(since) => Timestamp {
            before_epoch: false,
            secs: since.as_secs(),
            nanos: since.subsec_nanos(),
        },
        Err(e) => Timestamp {
            before_epoch: true,
            secs: e.duration().as_secs(),
            nanos: e.duration().subsec_nanos(),
        },
    }
}

/// The time that a date property writes: the time of parsing for `now`, else
/// what the text reads as a timestamp.
pub open spec fn date_of(text: Seq<char>, now: Timestamp) -> Option<Timestamp> {
    if text == "now"@ {
        Some(now)
    } else {
        Timestamp::after_epoch(rfc3339_weak(text))
    }
}

impl Timestamp {
    /// The nanoseconds stay below one second.
    pub open spec fn well_formed(&self) -> bool {
        self.nanos < 1_000_000_000
    }

    /// The point that lies `reading` after the epoch.
    pub open spec fn after_epoch(reading: Option<(u64, u32)>) -> Option<Timestamp> {
        match reading {
            Some((secs, nanos)) => Some(Timestamp { before_epoch: false, secs, nanos }),
            None => None,
        }
    }

    /// The current time.
    pub fn now() -> (t: Timestamp)
        ensures
            t.well_formed(),
    {
        read_clock()
    }

    /// The point that lies the given seconds and nanoseconds after the epoch.
    pub fn from_reading(reading: Option<(u64, u32)>) -> (r: Option<Timestamp>)
        ensures
            r == Timestamp::after_epoch(reading),
    {
        match reading {
            Some((secs, nanos)) => Some(Timestamp { before_epoch: false, secs, nanos }),
            None => None,
        }
    }

    /// Reads a date property: `now` is the time `now`, another text is read as a
    /// timestamp.
    pub fn parse(text: &[char], now: Timestamp) -> (r: Option<Timestamp>)
        ensures
            r == date_of(text@, now),
            now.well_formed() ==> (r matches Some(t) ==> t.well_formed()),
    {
        if is_text(text, "now") {
            Some(now)
        } else {
            let owned = string_of(text);
            Timestamp::from_reading(read_rfc3339_weak(owned.as_str()))
        }
    }
}

} // verus!
