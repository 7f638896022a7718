//! What the pull API answers: a snapshot, not found, or the collector error.

use vstd::prelude::*;
use crate::collector::{Collector, Error};
use crate::command::Command;
use crate::manager::{
    answer_views, called_in_order, gathered, has_name, index_of, keyed, names_of, sorted, Manager,
};

verus! {

/// The answer to a request for snapshots.
#[derive(Debug, PartialEq, Eq)]
pub enum Reply<V> {
    /// The snapshot asked for.
    Found(V),
    /// No collector has the name asked for.
    NotFound,
    /// A collector failed.
    Failed(Error),
}

/// The HTTP status of a reply.
pub open spec fn status_of<V>(r: Reply<V>) -> u16 {
    match r {
        Reply::Found(_) => 200,
        Reply::NotFound => 404,
        Reply::Failed(_) => 500,
    }
}

impl<V> Reply<V> {
    /// The HTTP status of this reply.
    pub fn status(&self) -> (r: u16)
        ensures
            r == status_of(*self),
    {
        match self {
            Reply::Found(_) => 200,
            Reply::NotFound => 404,
            Reply::Failed(_) => 500,
        }
    }
}

/// The answer to a request for the snapshot of the collector `name`: found
/// or failed when it is registered, not found otherwise.
pub fn collect_one<C: Collector, K: Command>(manager: &Manager<C, K>, name: &str) -> (r: Reply<C::Snapshot>)
    requires
        manager.wf(),
    ensures
        r is NotFound <==> !has_name(manager.collectors(), name@),
        status_of(r) == 404 <==> !has_name(manager.collectors(), name@),
        has_name(manager.collectors(), name@) ==> {
            let c = manager.collectors()[index_of(manager.collectors(), name@)].1;
            match r {
                Reply::Found(v) => c.answered(Ok(v)),
                Reply::Failed(Error::Collector(m)) => c.answered(Err(m)),
                Reply::NotFound => false,
            }
        },
{
    match manager.collect_one(name) {
        Ok(Some(v)) => Reply::Found(v),
        Ok(None) => Reply::NotFound,
        Err(e) => Reply::Failed(e),
    }
}

/// A reply for every snapshot as a gathering: found, or the failure's message.
pub open spec fn reply_view<V>(r: Reply<Vec<(String, V)>>) -> Result<Seq<(Seq<char>, V)>, Seq<char>> {
    match r {
        Reply::Found(v) => Ok(keyed(v@)),
        Reply::Failed(Error::Collector(m)) => Err(m@),
        Reply::NotFound => Err(Seq::empty()),
    }
}

/// The answer to a request for every snapshot: all of them under their
/// collectors' names in ascending order, or the first failure; never not
/// found.
pub fn collect_all<C: Collector, K: Command>(manager: &Manager<C, K>) -> (r: Reply<Vec<(String, C::Snapshot)>>)
    requires
        manager.wf(),
    ensures
        !(r is NotFound),
        exists|answers: Seq<Result<C::Snapshot, String>>|
            called_in_order(manager.collectors(), answers)
            && reply_view(r) == gathered(names_of(manager.collectors()), answer_views(answers)),
        r matches Reply::Found(v) ==> names_of(keyed(v@)) == names_of(manager.collectors()) && sorted(keyed(v@)),
        manager.collectors().len() == 0 ==> (r matches Reply::Found(v) && v@.len() == 0),
{
    match manager.collect_all() {
        Ok(v) => Reply::Found(v),
        Err(e) => Reply::Failed(e),
    }
}

} // verus!
