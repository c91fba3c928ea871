//! Log verbosity.
//!
//! Default level is `info`. Verbosity flags map `-v`=info, `-vv`=debug,
//! `-vvv`=trace, `-q`=error. An explicit filter in the environment takes
//! precedence.

use vstd::prelude::*;

verus! {

/// The log filter for the verbosity flags.
pub open spec fn filter_for(verbose: u8, quiet: bool) -> Seq<char> {
    if quiet {
        "avpm=error"@
    } else if verbose <= 1 {
        "avpm=info"@
    } else if verbose == 2 {
        "avpm=debug"@
    } else {
        "avpm=trace"@
    }
}

/// The log filter for the verbosity flags.
#[must_use]
pub fn default_filter(verbose: u8, quiet: bool) -> (r: &'static str)
    ensures
        r@ == filter_for(verbose, quiet),
{
    if quiet {
        "avpm=error"
    } else {
        match verbose {
            0 | 1 => "avpm=info",
            2 => "avpm=debug",
            _ => "avpm=trace",
        }
    }
}

/// Quiet means errors alone, whatever the verbosity; else each further `-v` from the
/// second on shows more, up to the third.
pub proof fn verbosity_sets_the_filter(verbose: u8, quiet: bool, r: &'static str)
    requires
        call_ensures(default_filter, (verbose, quiet), r),
    ensures
        r@ == "avpm=error"@ <==> quiet,
        r@ == "avpm=info"@ <==> !quiet && verbose < 2,
        r@ == "avpm=debug"@ <==> !quiet && verbose == 2,
        r@ == "avpm=trace"@ <==> !quiet && verbose > 2,
{
    reveal_strlit("avpm=error");
    reveal_strlit("avpm=info");
    reveal_strlit("avpm=debug");
    reveal_strlit("avpm=trace");
    assert("avpm=error"@[5] == 'e' && "avpm=info"@[5] == 'i' && "avpm=debug"@[5] == 'd'
        && "avpm=trace"@[5] == 't');
}

} // verus!
