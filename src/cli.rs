use vstd::prelude::*;

verus! {

/// The command line: one optional free-form input, which the dashboard does not use.
pub struct Cli {
    pub input: Option<String>,
}

} // verus!
