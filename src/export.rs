//! Formats of exported data.

use vstd::prelude::*;
use crate::text::{equals, lower_of, lowercase};

verus! {

#[derive(Debug, Clone, Copy, PartialEq, Eq, Structural)]
pub enum ExportFormat {
    Csv,
    Json,
}

/// The format that a lower-case name stands for.
pub open spec fn format_named(s: Seq<char>) -> Option<ExportFormat> {
    if s == "csv"@ {
        Some(ExportFormat::Csv)
    } else if s == "json"@ {
        Some(ExportFormat::Json)
    } else {
        None
    }
}

impl ExportFormat {
    /// The format named by `s`, in any case.
    pub fn from_str(s: &str) -> (r: Option<ExportFormat>)
        ensures
            r == format_named(lower_of(s@)),
    {
        let lower = lowercase(s);
        ExportFormat::from_lowercase(&lower)
    }

    /// The format named by `s`, which is already in lower case.
    pub fn from_lowercase(s: &String) -> (r: Option<ExportFormat>)
        ensures
            r == format_named(s@),
    {
        if equals(s, "csv") {
            Some(ExportFormat::Csv)
        } else if equals(s, "json") {
            Some(ExportFormat::Json)
        } else {
            None
        }
    }

    /// The file extension of the format.
    pub fn extension(&self) -> (r: &'static str)
        ensures
            r@ == (match self {
                ExportFormat::Csv => "csv"@,
                ExportFormat::Json => "json"@,
            }),
    {
        match self {
            ExportFormat::Csv => "csv",
            ExportFormat::Json => "json",
        }
    }
}

} // verus!
