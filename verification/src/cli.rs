//! Command-line argument handling.
//!
//! The invocation takes one required file path and an optional `--save`
//! flag; `--version` anywhere short-circuits first, then `-h`/`--help`; a
//! wrong argument count or an unrecognized option is a usage error. Only the
//! decision is made here; reading the arguments and acting on the decision
//! is the caller's.

use vstd::prelude::*;
use crate::extern_specs::str_eq;

verus! {

/// What a given argument list asks for.
pub enum CliAction {
    /// Print the version banner and stop.
    Version,
    /// Print the usage text and stop.
    Help,
    /// Too few or too many arguments: report a usage error.
    InvalidArgCount,
    /// A third argument other than `--save`: report it as invalid.
    InvalidOption(String),
    /// Run the pipeline over the file at `path`, persisting the report when
    /// `save` is set.
    Run { path: String, save: bool },
}

/// Some argument is the version flag.
pub open spec fn has_version_flag(args: Seq<Seq<char>>) -> bool {
    exists|i: int| 0 <= i < args.len() && args[i] == "--version"@
}

/// Some argument is a help flag.
pub open spec fn has_help_flag(args: Seq<Seq<char>>) -> bool {
    exists|i: int| 0 <= i < args.len() && (args[i] == "-h"@ || args[i] == "--help"@)
}

/// The decision the argument list `args` (program name included) must lead
/// to. Version wins over help; both win over validation of the count; a
/// third argument must be exactly `--save`.
pub open spec fn action_for(args: Seq<Seq<char>>, r: CliAction) -> bool {
    if has_version_flag(args) {
        r is Version
    } else if has_help_flag(args) {
        r is Help
    } else if args.len() < 2 || args.len() > 3 {
        r is InvalidArgCount
    } else if args.len() == 3 && args[2] != "--save"@ {
        r matches CliAction::InvalidOption(o) && o@ == args[2]
    } else {
        r matches CliAction::Run { path, save } && path@ == args[1] && (save <==> args.len()
            == 3)
    }
}

/// Decides what an argument list asks for.
pub fn parse_args(args: &Vec<String>) -> (r: CliAction)
    ensures
        action_for(args.deep_view(), r),
{
    let ghost vs = args.deep_view();
    let n = args.len();
    proof {
        assert(vs.len() == args@.len());
    }
    let mut i: usize = 0;
    while i < n
        invariant
            vs == args.deep_view(),
            n == vs.len(),
            i <= n,
            forall|j: int| 0 <= j < i ==> vs[j] != "--version"@,
        decreases n - i,
    {
        proof {
            assert(vs[i as int] == args@[i as int]@);
        }
        if str_eq(args[i].as_str(), "--version") {
            return CliAction::Version;
        }
        i = i + 1;
    }
    assert(!has_version_flag(vs));
    let mut i: usize = 0;
    while i < n
        invariant
            vs == args.deep_view(),
            n == vs.len(),
            i <= n,
            !has_version_flag(vs),
            forall|j: int| 0 <= j < i ==> vs[j] != "-h"@ && vs[j] != "--help"@,
        decreases n - i,
    {
        proof {
            assert(vs[i as int] == args@[i as int]@);
        }
        if str_eq(args[i].as_str(), "-h") || str_eq(args[i].as_str(), "--help") {
            proof {
                assert(0 <= i < vs.len() && (vs[i as int] == "-h"@ || vs[i as int] == "--help"@));
                assert(has_help_flag(vs));
            }
            return CliAction::Help;
        }
        i = i + 1;
    }
    assert(!has_help_flag(vs));
    if n < 2 || n > 3 {
        return CliAction::InvalidArgCount;
    }
    proof {
        assert(vs[1] == args@[1]@);
    }
    if n == 3 {
        proof {
            assert(vs[2] == args@[2]@);
        }
        if !str_eq(args[2].as_str(), "--save") {
            let opt = args[2].clone();
            return CliAction::InvalidOption(opt);
        }
        let path = args[1].clone();
        CliAction::Run { path, save: true }
    } else {
        let path = args[1].clone();
        CliAction::Run { path, save: false }
    }
}

} // verus!
