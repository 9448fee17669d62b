//! Options shared by every command: the output format and the global flags.

use vstd::prelude::*;

verus! {

pub struct GlobalOpts {
    /// Output format
    pub format: OutputFormat,

    /// Suppress non-essential output
    pub quiet: bool,

    /// Enable verbose output
    pub verbose: bool,

    /// Project root (default: auto-detect by finding .tdt/)
    pub project: Option<String>,
}

#[derive(Debug, Clone, Copy, PartialEq, Eq, Structural)]
pub enum OutputFormat {
    /// Automatically detect based on context (yaml for show, tsv for list)
    Auto,
    /// YAML format (full fidelity)
    Yaml,
    /// Tab-separated values (for piping)
    Tsv,
    /// JSON format (for programming)
    Json,
    /// CSV format (for spreadsheets)
    Csv,
    /// Markdown tables
    Md,
    /// Just IDs, one per line
    Id,
    /// Just short IDs, one per line
    ShortId,
}

impl Default for OutputFormat {
    /// The format chosen when none is given: automatic.
    fn default() -> (r: OutputFormat)
        ensures
            r == OutputFormat::Auto,
    {
        OutputFormat::Auto
    }
}

/// The format a list is written in: automatic means tab-separated.
pub open spec fn list_format_of(f: OutputFormat) -> OutputFormat {
    match f {
        OutputFormat::Auto => OutputFormat::Tsv,
        _ => f,
    }
}

/// Resolves the automatic format for list output.
pub fn list_format(f: OutputFormat) -> (r: OutputFormat)
    ensures
        r == list_format_of(f),
{
    match f {
        OutputFormat::Auto => OutputFormat::Tsv,
        _ => f,
    }
}

/// The format carries whole records (JSON or YAML), which only the entity
/// files can supply.
pub open spec fn is_full_record_format(f: OutputFormat) -> bool {
    f == OutputFormat::Json || f == OutputFormat::Yaml
}

/// Whether the format carries whole records.
pub fn full_record_format(f: OutputFormat) -> (r: bool)
    ensures
        r == is_full_record_format(f),
{
    match f {
        OutputFormat::Json | OutputFormat::Yaml => true,
        _ => false,
    }
}

} // verus!
