//! Reading the command line: the usage decision and the run's arguments.
use vstd::prelude::*;

verus! {

use crate::numerals::days_threshold_arg;
use crate::numerals::i64_numeral_val;
use crate::numerals::is_i64_numeral;

/// What an invocation calls for: with fewer than three positional arguments,
/// only the usage text, and a successful exit with no network call at all;
/// otherwise a run over the named organization and destination folder with
/// the given recency threshold.
pub enum Invocation {
    Usage,
    Run { org: String, folder: String, days_threshold: i64 },
}

/// Decide an invocation from the raw argument list (the program name first).
/// Fewer than three positional arguments ask for the usage text; a third
/// positional argument that does not parse as an integer silently becomes
/// the default threshold of 365 days.
pub fn plan_invocation(args: &Vec<String>) -> (r: Invocation)
    ensures
        args@.len() < 4 ==> r == Invocation::Usage,
        args@.len() >= 4 ==> ({
            &&& r matches Invocation::Run { org, folder, days_threshold }
            &&& org@ == args@[1]@
            &&& folder@ == args@[2]@
            &&& days_threshold as int == (if is_i64_numeral(args@[3]@) {
                i64_numeral_val(args@[3]@)
            } else {
                365int
            })
        }),
{
    if args.len() < 4 {
        Invocation::Usage
    } else {
        let org: String = args[1].clone();
        let folder: String = args[2].clone();
        let days_threshold: i64 = days_threshold_arg(args[3].as_str());
        Invocation::Run { org, folder, days_threshold }
    }
}

} // verus!
