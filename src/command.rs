//! Pluggable commands: named actions that can be triggered from outside.

use vstd::prelude::*;
use crate::discovery::Discovery;

verus! {

/// A named action. Running it is left to whoever holds it: the trigger
/// protocol only says when to start it and learns when it is done.
pub trait Command {
    /// Whether `d` is a button this command may describe itself by.
    spec fn described(&self, d: Option<Discovery>) -> bool;

    /// The button that triggers this command, if it is to be announced.
    fn describe_ha(&self) -> (r: Option<Discovery>)
        ensures
            self.described(r),
    ;
}

} // verus!
