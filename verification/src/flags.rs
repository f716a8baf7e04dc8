//! Startup flags: parsed once from the process launch arguments, pure values,
//! read-only after the parse.

use vstd::prelude::*;
use vstd::string::StringExecFns;

verus! {

/// Startup flags, parsed once from the process launch arguments and
/// read-only afterwards.
#[derive(Clone, Copy, PartialEq, Eq, Debug, Structural)]
pub struct Flags {
    /// Skip all hooking and become an inert passenger in the host.
    pub disable_mods: bool,
    /// Skip allocation of the diagnostic console.
    pub disable_console: bool,
    /// Ask the patch runtime for verbose patch dumping.
    pub dump_all: bool,
}

/// Whether one of the launch arguments is exactly `flag`.
pub open spec fn has_flag(args: Seq<String>, flag: Seq<char>) -> bool {
    exists|i: int| 0 <= i < args.len() && #[trigger] args[i]@ == flag
}

/// Linear scan for an exact argument match.
fn contains_flag(args: &Vec<String>, flag: &String) -> (r: bool)
    ensures
        r == has_flag(args@, flag@),
{
    let mut j: usize = 0;
    while j < args.len()
        invariant
            j <= args.len(),
            forall|i: int| 0 <= i < j ==> #[trigger] args@[i]@ != flag@,
        decreases args.len() - j,
    {
        if args[j].eq(flag) {
            return true;
        }
        j = j + 1;
    }
    false
}

/// Parse the launch arguments into the three recognized flags.
///
/// The disable-interception flag has a long and a short form; either one
/// makes the shim inert.  Unrecognized arguments are ignored.
pub fn parse_flags(args: &Vec<String>) -> (f: Flags)
    ensures
        f.disable_mods == (has_flag(args@, "--disable-mods"@) || has_flag(args@, "-d"@)),
        f.disable_console == has_flag(args@, "--disable-console"@),
        f.dump_all == has_flag(args@, "--dump-all"@),
{
    let long_disable = String::from_str("--disable-mods");
    let short_disable = String::from_str("-d");
    let no_console = String::from_str("--disable-console");
    let dump = String::from_str("--dump-all");
    let disable_mods = contains_flag(args, &long_disable) || contains_flag(args, &short_disable);
    let disable_console = contains_flag(args, &no_console);
    let dump_all = contains_flag(args, &dump);
    Flags { disable_mods, disable_console, dump_all }
}

} // verus!
