//! Command-line decisions: which run source the arguments select, and the
//! one-line diagnostics for a splits file that cannot be used. Reading the
//! arguments, printing and exiting happen outside the library.

use vstd::prelude::*;

verus! {

/// Where the run comes from: the usage text (then nothing runs), a splits
/// file named on the command line, or the built-in default run.
#[derive(Clone, Debug, PartialEq, Eq)]
pub enum RunSource {
    ShowHelp,
    File(String),
    BuiltIn,
}

/// Decides the run source: a help request wins; otherwise the first free
/// argument names the splits file; with neither, the built-in run is used
/// silently.
pub fn choose_run_source(help: bool, first_free: Option<String>) -> (r: RunSource)
    ensures
        r is ShowHelp <==> help,
        !help ==> (r is File <==> first_free is Some),
        !help && first_free is Some ==> (r matches RunSource::File(p) && p@ == first_free->0@),
        !help && first_free is None ==> r is BuiltIn,
{
    if help {
        RunSource::ShowHelp
    } else {
        match first_free {
            Some(path) => RunSource::File(path),
            None => RunSource::BuiltIn,
        }
    }
}

/// The one-line diagnostic for a splits file that could not be opened.
pub fn open_failure_message(path: &str) -> (r: String)
    ensures
        r@ == "Unable to open "@ + path@,
{
    let mut m = String::from_str("Unable to open ");
    m.append(path);
    m
}

/// The one-line diagnostic for a splits file that could not be parsed.
pub fn parse_failure_message(path: &str) -> (r: String)
    ensures
        r@ == "Unable to parse "@ + path@,
{
    let mut m = String::from_str("Unable to parse ");
    m.append(path);
    m
}

} // verus!
