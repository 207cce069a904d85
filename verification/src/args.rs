//! The configuration of a run.

use vstd::prelude::*;

verus! {

/// The resolved configuration of one run. It is made once, before any stage
/// starts, and only read after that.
pub struct Args {
    /// The path of the input file; empty to read standard input.
    pub infile: String,
    /// The path of the output file; empty to write standard output.
    pub outfile: String,
    /// Whether all progress output is suppressed.
    pub silent: bool,
}

/// The text of an option that may be absent: the empty text where it is.
pub open spec fn text_or_empty(value: Option<String>) -> Seq<char> {
    match value {
        Some(text) => text@,
        None => Seq::empty(),
    }
}

/// Whether a run is silent: the flag decides where it is given; without it
/// any non-empty value of the environment toggle switches silence on.
pub open spec fn silence(flag: bool, toggle: Option<String>) -> bool {
    flag || text_or_empty(toggle).len() > 0
}

fn or_empty(value: Option<String>) -> (text: String)
    ensures
        text@ == text_or_empty(value),
{
    match value {
        Some(text) => text,
        None => String::new(),
    }
}

impl Args {
    /// Resolves the configuration from what the command line gave and the
    /// value of the environment toggle, `None` where it is not set.
    pub fn resolve(
        infile: Option<String>,
        outfile: Option<String>,
        silent_flag: bool,
        silent_toggle: Option<String>,
    ) -> (args: Args)
        ensures
            args.infile@ == text_or_empty(infile),
            args.outfile@ == text_or_empty(outfile),
            args.silent == silence(silent_flag, silent_toggle),
    {
        let silent = if silent_flag {
            true
        } else {
            !or_empty(silent_toggle).as_str().is_empty()
        };
        Args { infile: or_empty(infile), outfile: or_empty(outfile), silent }
    }

    /// Whether the input comes from standard input.
    pub fn reads_stdin(&self) -> (stdin: bool)
        ensures
            stdin == (self.infile@.len() == 0),
    {
        self.infile.as_str().is_empty()
    }

    /// Whether the output goes to standard output.
    pub fn writes_stdout(&self) -> (stdout: bool)
        ensures
            stdout == (self.outfile@.len() == 0),
    {
        self.outfile.as_str().is_empty()
    }
}

} // verus!
