//! Pluggable metric sources.

use vstd::prelude::*;
use crate::discovery::Discovery;

verus! {

/// How one value of a snapshot is rendered: its name, its unit and the
/// template that reads it out of the snapshot.
#[derive(Clone, Debug)]
pub struct ValueDescriptor {
    pub name: &'static str,
    pub unit_of_measurement: Option<&'static str>,
    pub value_template: &'static str,
}

/// A source of snapshots: each call of `collect` produces one, or fails
/// with a message. An implementation states through `answered` and
/// `described` what its calls may return; the registry's contracts speak of
/// the collectors' answers through them.
pub trait Collector {
    type Snapshot;

    /// Whether `r` is an answer this collector may give.
    spec fn answered(&self, r: Result<Self::Snapshot, String>) -> bool;

    /// Whether `d` is a list of entities this collector may describe itself by.
    spec fn described(&self, d: Vec<Discovery>) -> bool;

    /// Produces one snapshot.
    fn collect(&self) -> (r: Result<Self::Snapshot, String>)
        ensures
            self.answered(r),
    ;

    /// The entities that present this collector's snapshots.
    fn describe_ha(&self) -> (r: Vec<Discovery>)
        ensures
            self.described(r),
    ;
}

/// A failure to collect.
#[derive(Clone, Debug, PartialEq, Eq)]
pub enum Error {
    /// A collector failed, with its message.
    Collector(String),
}

impl Error {
    /// The failure's message.
    pub fn message(&self) -> (r: &String)
        ensures
            match self {
                Error::Collector(m) => r@ == m@,
            },
    {
        match self {
            Error::Collector(m) => m,
        }
    }

    /// The kind of failure, as reported to clients: always `CollectorError`.
    pub fn kind(&self) -> (r: &'static str)
        ensures
            r@ == "CollectorError"@,
    {
        "CollectorError"
    }
}

} // verus!
