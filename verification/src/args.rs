use vstd::prelude::*;

verus! {

/// What the command line asks for.
#[derive(Debug, Clone, Copy, PartialEq, Eq, Structural)]
pub enum Invocation {
    /// Run, hidden in the tray or not.
    Run { hidden: bool },
    /// Print the usage and stop.
    Help,
    /// The argument at `index` is not known: print it and the usage, and fail.
    Unknown { index: usize },
}

/// The usage text.
pub const USAGE: &'static str = "usage: pw-eq-imgui [--hidden]\n\n  --hidden   start minimized to the system tray";

/// The exit status for an unknown argument.
pub const USAGE_EXIT_CODE: i32 = 2;

/// What the arguments `args` from index `from` on ask for, `--hidden` having been seen
/// already when `hidden`: arguments are read in order, `--hidden` asks to start hidden,
/// `-h` or `--help` stops at the usage, and any other argument is an error.
pub open spec fn invocation_from(args: Seq<String>, from: int, hidden: bool) -> Invocation
    decreases args.len() - from,
{
    if from < 0 || from >= args.len() {
        Invocation::Run { hidden }
    } else if args[from]@ == "--hidden"@ {
        invocation_from(args, from + 1, true)
    } else if args[from]@ == "-h"@ || args[from]@ == "--help"@ {
        Invocation::Help
    } else {
        Invocation::Unknown { index: from as usize }
    }
}

/// What the arguments (the program name left out) ask for.
pub fn parse_args(args: &Vec<String>) -> (r: Invocation)
    ensures
        r == invocation_from(args@, 0, false),
{
    let hidden_flag = String::from_str("--hidden");
    let short_help = String::from_str("-h");
    let long_help = String::from_str("--help");
    let mut hidden = false;
    let mut i: usize = 0;
    while i < args.len()
        invariant
            0 <= i <= args@.len(),
            hidden_flag@ == "--hidden"@,
            short_help@ == "-h"@,
            long_help@ == "--help"@,
            invocation_from(args@, 0, false) == invocation_from(args@, i as int, hidden),
        decreases args@.len() - i,
    {
        let arg = &args[i];
        if *arg == hidden_flag {
            hidden = true;
        } else if *arg == short_help || *arg == long_help {
            return Invocation::Help;
        } else {
            return Invocation::Unknown { index: i };
        }
        i = i + 1;
    }
    Invocation::Run { hidden }
}

} // verus!
