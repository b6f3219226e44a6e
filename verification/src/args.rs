//! The command line of the catalog service.

use vstd::prelude::*;
use vstd::string::StringExecFns;

verus! {

/// The flags of the service.
#[derive(Debug, Clone, Copy, PartialEq, Eq, Structural)]
pub struct Args {
    /// Whether the service runs once against the provider and prints what
    /// it finds, in place of serving requests.
    pub dev: bool,
}

/// The line that announces the mode of a run; it ends in a line end of its
/// own, so that an empty line follows.
pub open spec fn banner_of(args: Args) -> Seq<char> {
    if args.dev {
        "Running in development mode\n"@
    } else {
        "Running in production mode\n"@
    }
}

impl Args {
    /// The line that announces the mode of this run.
    pub fn banner(&self) -> (r: String)
        ensures
            r@ == banner_of(*self),
    {
        if self.dev {
            String::from_str("Running in development mode\n")
        } else {
            String::from_str("Running in production mode\n")
        }
    }
}

} // verus!
