//! The five severity levels of a log record, ordered from least to most
//! severe, together with their fixed-width textual labels.

use vstd::prelude::*;

verus! {

/// A record's severity. The order, least to most severe, is
/// `Trace < Debug < Info < Warn < Error`.
#[derive(Clone, Copy, PartialEq, Eq, Structural, Debug)]
pub enum Severity {
    Trace,
    Debug,
    Info,
    Warn,
    Error,
}

/// Position of a severity in the total order, least severe first.
pub open spec fn rank(s: Severity) -> nat {
    match s {
        Severity::Trace => 0,
        Severity::Debug => 1,
        Severity::Info => 2,
        Severity::Warn => 3,
        Severity::Error => 4,
    }
}

/// The label of a severity, padded on the right to exactly five characters.
pub open spec fn label_spec(s: Severity) -> Seq<char> {
    match s {
        Severity::Trace => "TRACE"@,
        Severity::Debug => "DEBUG"@,
        Severity::Info => "INFO "@,
        Severity::Warn => "WARN "@,
        Severity::Error => "ERROR"@,
    }
}

impl Severity {
    /// True when `self` is at least as severe as `other`.
    pub fn at_least(self, other: Severity) -> (r: bool)
        ensures
            r == (rank(self) >= rank(other)),
    {
        self.rank_exec() >= other.rank_exec()
    }

    fn rank_exec(self) -> (r: u8)
        ensures
            r as nat == rank(self),
    {
        match self {
            Severity::Trace => 0,
            Severity::Debug => 1,
            Severity::Info => 2,
            Severity::Warn => 3,
            Severity::Error => 4,
        }
    }

    /// The five-character label, e.g. `"INFO "` or `"ERROR"`.
    pub fn label(self) -> (r: &'static str)
        ensures
            r@ == label_spec(self),
            r@.len() == 5,
    {
        proof {
            reveal_strlit("TRACE");
            reveal_strlit("DEBUG");
            reveal_strlit("INFO ");
            reveal_strlit("WARN ");
            reveal_strlit("ERROR");
        }
        match self {
            Severity::Trace => "TRACE",
            Severity::Debug => "DEBUG",
            Severity::Info => "INFO ",
            Severity::Warn => "WARN ",
            Severity::Error => "ERROR",
        }
    }
}

} // verus!
