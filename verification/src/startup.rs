//! Checks made once, before any log file is touched.

use vstd::prelude::*;

verus! {

/// How the rows are written out.
#[derive(Clone, Copy, Debug, PartialEq, Eq, Structural)]
pub enum OutputFormat {
    /// One table in an SQLite database.
    Sqlite,
    /// Tab-separated values with a header line.
    Tsv,
}

impl Default for OutputFormat {
    /// The format used when none is asked for.
    fn default() -> (format: OutputFormat)
        ensures
            format == OutputFormat::Sqlite,
    {
        OutputFormat::Sqlite
    }
}

/// The path that the rows are written to when none is asked for.
pub fn default_output() -> (path: &'static str)
    ensures
        path@ == "./UnifiedLogs.db"@,
{
    "./UnifiedLogs.db"
}

/// Why a run is refused before it starts.
#[derive(Clone, Copy, Debug, PartialEq, Eq, Structural)]
pub enum Refusal {
    /// The input path does not name a directory.
    InputNotDirectory,
    /// Something already exists at the output path; it is never overwritten.
    OutputExists,
}

impl Refusal {
    /// The status the process exits with after this refusal.
    pub open spec fn spec_exit_code(self) -> i32 {
        1
    }

    /// The status the process exits with after this refusal.
    #[verifier::when_used_as_spec(spec_exit_code)]
    pub fn exit_code(self) -> (code: i32)
        ensures
            code == self.spec_exit_code(),
            code != 0,
    {
        1
    }
}

/// What `preflight` answers for the two facts it is given.
pub open spec fn preflight_spec(input_is_dir: bool, output_is_file: bool) -> Result<(), Refusal> {
    if !input_is_dir {
        Err(Refusal::InputNotDirectory)
    } else if output_is_file {
        Err(Refusal::OutputExists)
    } else {
        Ok(())
    }
}

/// Decides whether a run may start.
///
/// `input_is_dir` says whether the input path resolves to a directory,
/// `output_is_file` whether a file already sits at the output path.  The input
/// is judged first, so a bad input is reported even when the output exists.
pub fn preflight(input_is_dir: bool, output_is_file: bool) -> (verdict: Result<(), Refusal>)
    ensures
        verdict == preflight_spec(input_is_dir, output_is_file),
        verdict.is_ok() <==> input_is_dir && !output_is_file,
{
    if !input_is_dir {
        Err(Refusal::InputNotDirectory)
    } else if output_is_file {
        Err(Refusal::OutputExists)
    } else {
        Ok(())
    }
}

} // verus!
