//! How a pinned version is judged against the latest one, and the tally of
//! the judgements of a run.

use vstd::prelude::*;
use vstd::string::*;
use crate::resolve::{Version, VersionModel};
use crate::text::{decimal, push_decimal};

verus! {

/// The judgement on one dependency.
#[derive(Debug, Clone, Copy, PartialEq, Eq, Structural)]
pub enum Classification {
    /// The pinned version is the latest one.
    Current,
    /// A later version is out. `lag` is the publish time of the pinned
    /// version minus that of the latest, in seconds: negative where the
    /// pinned version is the older one.
    Dated { lag: i128 },
    /// The registry does not know the pinned version, or knows no latest one.
    Unknown,
}

/// The judgement on a pinned and a latest version, as far as the registry
/// found them.
pub open spec fn classification(
    pinned: Option<VersionModel>,
    latest: Option<VersionModel>,
) -> Classification {
    match (pinned, latest) {
        (Some(p), Some(l)) => if p.version == l.version {
            Classification::Current
        } else {
            Classification::Dated { lag: (p.publish_time - l.publish_time) as i128 }
        },
        _ => Classification::Unknown,
    }
}

/// Judges a pinned version against the latest one.
pub fn classify(pinned: &Option<Version>, latest: &Option<Version>) -> (c: Classification)
    ensures
        c == classification(pinned.deep_view(), latest.deep_view()),
        c matches Classification::Dated { lag } ==> lag == pinned->0.publish_time
            - latest->0.publish_time,
{
    match pinned {
        Some(p) => match latest {
            Some(l) => {
                if p.version == l.version {
                    Classification::Current
                } else {
                    Classification::Dated { lag: p.publish_time as i128 - l.publish_time as i128 }
                }
            },
            None => Classification::Unknown,
        },
        None => Classification::Unknown,
    }
}

/// A dependency whose pinned version the registry does not know is
/// `Unknown`, whatever the latest version is.
pub proof fn unknown_without_pinned(latest: Option<VersionModel>)
    ensures
        classification(None, latest) == Classification::Unknown,
{
}

/// A dependency of which the registry knows no latest version is `Unknown`.
pub proof fn unknown_without_latest(pinned: Option<VersionModel>)
    ensures
        classification(pinned, None) == Classification::Unknown,
{
}

/// Where both versions are found, the dependency is `Current` exactly when
/// their version texts are the same, whatever the publish times.
pub proof fn current_iff_same_version(pinned: VersionModel, latest: VersionModel)
    ensures
        classification(Some(pinned), Some(latest)) == Classification::Current <==> pinned.version
            == latest.version,
{
}

/// Where the versions differ, the dependency is `Dated`, and the lag is the
/// publish time of the pinned version minus that of the latest: below zero
/// exactly when the pinned version was published first.
pub proof fn dated_lag(pinned: VersionModel, latest: VersionModel)
    requires
        pinned.version != latest.version,
        i64::MIN <= pinned.publish_time <= i64::MAX,
        i64::MIN <= latest.publish_time <= i64::MAX,
    ensures
        classification(Some(pinned), Some(latest)) matches Classification::Dated { lag }
            && lag == pinned.publish_time - latest.publish_time
            && (lag < 0 <==> pinned.publish_time < latest.publish_time),
{
}

/// How many dependencies of a run were judged dated, current and unknown.
#[derive(Debug, Clone, Copy, PartialEq, Eq, Structural)]
pub struct Stats {
    pub dated: usize,
    pub current: usize,
    pub unknown: usize,
}

impl Default for Stats {
    fn default() -> (stats: Stats)
        ensures
            stats == (Stats { dated: 0, current: 0, unknown: 0 }),
    {
        Stats { dated: 0, current: 0, unknown: 0 }
    }
}

impl Stats {
    /// The number of judgements in the tally.
    pub open spec fn total(self) -> int {
        self.dated + self.current + self.unknown
    }

    /// The tally with one more judgement counted.
    pub open spec fn with(self, c: Classification) -> Stats {
        match c {
            Classification::Current => Stats { current: (self.current + 1) as usize, ..self },
            Classification::Dated { .. } => Stats { dated: (self.dated + 1) as usize, ..self },
            Classification::Unknown => Stats { unknown: (self.unknown + 1) as usize, ..self },
        }
    }

    /// The summary line: the three counts in decimal, each behind its label.
    pub open spec fn summary_text(self) -> Seq<char> {
        "Dated: "@ + decimal(self.dated as nat) + " Current: "@ + decimal(self.current as nat)
            + " Unknown: "@ + decimal(self.unknown as nat)
    }

    /// Counts one more judgement.
    pub fn record(&mut self, c: Classification)
        requires
            old(self).total() < usize::MAX,
        ensures
            *final(self) == old(self).with(c),
            final(self).total() == old(self).total() + 1,
    {
        match c {
            Classification::Current => {
                self.current = self.current + 1;
            },
            Classification::Dated { .. } => {
                self.dated = self.dated + 1;
            },
            Classification::Unknown => {
                self.unknown = self.unknown + 1;
            },
        }
    }

    /// The line that sums up a run.
    pub fn summary(&self) -> (line: String)
        ensures
            line@ == self.summary_text(),
    {
        let mut line = String::from_str("Dated: ");
        push_decimal(&mut line, self.dated as u64);
        line.append(" Current: ");
        push_decimal(&mut line, self.current as u64);
        line.append(" Unknown: ");
        push_decimal(&mut line, self.unknown as u64);
        line
    }
}

} // verus!
