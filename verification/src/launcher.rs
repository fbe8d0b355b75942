//! The launcher's decisions: what to do with a given argument list, and the
//! text of each error. The first argument is the program's own name and is
//! ignored; the second is the required target (a file, URL or executable);
//! the rest are parameters joined into the native command line. The process
//! shell around the library carries the chosen action out: it prints, sets
//! the environment right, makes the one OS call and exits.

use vstd::prelude::*;

use crate::quoting::{contains_char, join, join_params};
use crate::status::LaunchFailure;

verus! {

/// Which of the two strings handed to the OS call held an embedded NUL.
#[derive(Clone, Copy, Debug, PartialEq, Eq, Structural)]
pub enum EncodingPlace {
    /// The target itself.
    Target,
    /// The joined parameter string.
    Parameters,
}

/// Everything that can go wrong: a missing target, an embedded NUL byte in
/// a string that must be NUL-terminated for the OS call, or a failure
/// status reported by the OS call itself.
#[derive(Clone, Copy, Debug, PartialEq, Eq, Structural)]
pub enum Error {
    /// No target argument was supplied.
    Usage,
    /// The target or the joined parameter string contains a NUL byte.
    Encoding(EncodingPlace),
    /// The OS open primitive reported a failure status.
    Launch(LaunchFailure),
}

impl Error {
    /// The human-readable text for this error.
    pub open spec fn message_spec(self) -> Seq<char> {
        match self {
            Error::Usage => "no file specified"@,
            Error::Encoding(EncodingPlace::Target) => "invalid filename (contains NULL)"@,
            Error::Encoding(EncodingPlace::Parameters) => "invalid arguments (contains NULL)"@,
            Error::Launch(f) => "ShellExecute: "@ + f.message_spec(),
        }
    }

    /// Build the human-readable text for this error.
    pub fn message(&self) -> (r: String)
        ensures
            r@ == self.message_spec(),
    {
        match self {
            Error::Usage => String::from_str("no file specified"),
            Error::Encoding(EncodingPlace::Target) => String::from_str(
                "invalid filename (contains NULL)",
            ),
            Error::Encoding(EncodingPlace::Parameters) => String::from_str(
                "invalid arguments (contains NULL)",
            ),
            Error::Launch(f) => {
                let mut s = String::from_str("ShellExecute: ");
                let m = f.message();
                s.append(m.as_str());
                s
            },
        }
    }
}

/// The target values that ask for the usage text instead of a launch.
pub open spec fn is_help_flag(s: Seq<char>) -> bool {
    s == "-h"@ || s == "--help"@ || s == "/?"@
}

/// What the launcher decides to do with an argument list.
#[derive(Debug, PartialEq, Eq)]
pub enum Action {
    /// Print the usage text and exit with code 1.
    Help,
    /// Report the error and exit with code 1, touching nothing else.
    Reject(Error),
    /// Hand the target and the joined parameter string (absent when there
    /// are no parameters) to the OS open primitive.
    Invoke { file: String, params: Option<String> },
}

/// Whether this target asks for the usage text.
fn check_help_flag(file: &String) -> (r: bool)
    ensures
        r == is_help_flag(file@),
{
    let short = String::from_str("-h");
    let long = String::from_str("--help");
    let slash = String::from_str("/?");
    *file == short || *file == long || *file == slash
}

/// Decide what to do with the raw argument list, whose first element is the
/// program's own name. A missing target is rejected before anything else;
/// a help flag asks for the usage text; a NUL byte in the target, or in the
/// parameter string joined by the quoting convention, is rejected before
/// any OS call could be made; otherwise the launch is on, with no parameter
/// string at all when the target stood alone.
pub fn plan(args: &Vec<String>) -> (a: Action)
    ensures
        args.deep_view().len() < 2 ==> a == Action::Reject(Error::Usage),
        args.deep_view().len() >= 2 && is_help_flag(args.deep_view()[1]) ==> a == Action::Help,
        args.deep_view().len() >= 2 && !is_help_flag(args.deep_view()[1]) && args.deep_view()[1].contains(
            '\0',
        ) ==> a == Action::Reject(Error::Encoding(EncodingPlace::Target)),
        args.deep_view().len() >= 2 && !is_help_flag(args.deep_view()[1])
            && !args.deep_view()[1].contains('\0') && join(args.deep_view().skip(2)).contains('\0')
            ==> a == Action::Reject(Error::Encoding(EncodingPlace::Parameters)),
        args.deep_view().len() >= 2 && !is_help_flag(args.deep_view()[1])
            && !args.deep_view()[1].contains('\0') && !join(args.deep_view().skip(2)).contains('\0')
            ==> (a matches Action::Invoke { file, params } && file@ == args.deep_view()[1] && (
        args.deep_view().len() == 2 ==> params is None) && (args.deep_view().len() > 2 ==> (
        params matches Some(p) && p@ == join(args.deep_view().skip(2))))),
{
    let ghost av = args.deep_view();
    if args.len() < 2 {
        return Action::Reject(Error::Usage);
    }
    let file = &args[1];
    assert(file@ == av[1]);
    if check_help_flag(file) {
        return Action::Help;
    }
    if contains_char(file.as_str(), '\0') {
        return Action::Reject(Error::Encoding(EncodingPlace::Target));
    }
    let mut params_vec: Vec<String> = Vec::new();
    let mut i: usize = 2;
    assert(params_vec.deep_view() =~= av.subrange(2, 2));
    while i < args.len()
        invariant
            av == args.deep_view(),
            2 <= i <= args.len(),
            params_vec.deep_view() == av.subrange(2, i as int),
        decreases args.len() - i,
    {
        let ghost pv = params_vec.deep_view();
        params_vec.push(args[i].clone());
        assert(params_vec.deep_view() =~= pv.push(av[i as int]));
        assert(pv.push(av[i as int]) =~= av.subrange(2, i + 1));
        i += 1;
    }
    assert(params_vec.deep_view() =~= av.skip(2));
    let joined = join_params(&params_vec);
    if contains_char(joined.as_str(), '\0') {
        return Action::Reject(Error::Encoding(EncodingPlace::Parameters));
    }
    if args.len() > 2 {
        Action::Invoke { file: file.clone(), params: Some(joined) }
    } else {
        Action::Invoke { file: file.clone(), params: None }
    }
}

/// Build the usage synopsis that a help flag asks for.
pub fn usage_text() -> (r: String)
    ensures
        r@
            == "usage: winstart.exe FILE [ARGUMENTS...]\n\nFILE may be a filename, URL, or executable file.\nIf FILE is an executable, ARGUMENTS are joined with spaces when passed\nto the programs Windows-style command-line. Any arguments with spaces\nwill be surrounded by double quotes."@,
{
    String::from_str(
        "usage: winstart.exe FILE [ARGUMENTS...]\n\nFILE may be a filename, URL, or executable file.\nIf FILE is an executable, ARGUMENTS are joined with spaces when passed\nto the programs Windows-style command-line. Any arguments with spaces\nwill be surrounded by double quotes.",
    )
}

} // verus!
