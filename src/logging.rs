//! How verbose the agent's log is.

use vstd::prelude::*;

verus! {

/// The log filter for `verbose` repetitions of the verbose flag and the
/// quiet flag: quiet wins over verbose, and each repetition shows more.
pub open spec fn filters_of(verbose: u8, quiet: bool) -> Seq<char> {
    if quiet {
        "error,resymo_agent=warn"@
    } else if verbose == 0 {
        "warn,resymo_agent=info"@
    } else if verbose == 1 {
        "info,resymo_agent=debug"@
    } else if verbose == 2 {
        "debug,resymo_agent=trace"@
    } else {
        "trace"@
    }
}

/// The log filter for the given flags.
pub fn log_filters(verbose: u8, quiet: bool) -> (r: &'static str)
    ensures
        r@ == filters_of(verbose, quiet),
{
    if quiet {
        "error,resymo_agent=warn"
    } else if verbose == 0 {
        "warn,resymo_agent=info"
    } else if verbose == 1 {
        "info,resymo_agent=debug"
    } else if verbose == 2 {
        "debug,resymo_agent=trace"
    } else {
        "trace"
    }
}

} // verus!
