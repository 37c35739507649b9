use vstd::prelude::*;

verus! {

/// Why a name or a table position could not be resolved; each variant keeps
/// the offending input so that a caller can report it.
#[derive(Debug, PartialEq, Eq)]
pub enum ParseError {
    UnknownMode(String),
    UnknownSampleMethod(String),
    UnknownSchedule(String),
    UnknownRng(String),
    SampleMethodIndexOutOfRange(usize),
    ScheduleIndexOutOfRange(usize),
}

/// Exact comparison of two string slices by their characters.
pub fn same_name(a: &str, b: &str) -> (r: bool)
    ensures
        r == (a@ == b@),
{
    let x: String = a.to_owned();
    let y: String = b.to_owned();
    x == y
}

} // verus!
