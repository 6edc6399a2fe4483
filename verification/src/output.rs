//! The filter that every record passes through before it is printed.

use jq::JsonFilter;
use jq::JsonFilterError;
use serde_json::Value;
use vstd::prelude::*;
use vstd::string::*;

verus! {

#[verifier::external_type_specification]
#[verifier::external_body]
pub struct ExJsonFilter(jq::JsonFilter);

/// The filter as a jq program: it hands every record on as it is.
pub const FILTER_PROGRAM: &'static str = ".";

/// The filter, compiled. The only way to one is `filter`, so that every
/// `RecordFilter` is the program `FILTER_PROGRAM` and no other.
pub struct RecordFilter {
    inner: JsonFilter,
}

/// Why a filter gave no value.
#[derive(Clone, Debug, PartialEq, Eq)]
pub enum FilterFailure {
    /// The filter has no output for this record.
    NoOutput,
    /// The filter failed on the record, with this message.
    Failed { message: String },
}

pub ghost enum FilterFault {
    NoOutput,
    Failed { message: Seq<char> },
}

impl View for FilterFailure {
    type V = FilterFault;

    open spec fn view(&self) -> FilterFault {
        match self {
            FilterFailure::NoOutput => FilterFault::NoOutput,
            FilterFailure::Failed { message } => FilterFault::Failed { message: message@ },
        }
    }
}

/// What is done with a record after it went through the filter.
#[derive(Clone, Debug, PartialEq, Eq)]
pub enum Emission {
    /// Print this value.
    Print(Value),
    /// Print nothing.
    Skip,
    /// Print nothing, and log this message.
    Report(String),
}

/// Whether a text is a jq program that compiles.
pub uninterp spec fn compiles(program: Seq<char>) -> bool;

/// What the program `FILTER_PROGRAM` gives for a record: its first output, or
/// why there is none.
pub uninterp spec fn record_output(input: Value) -> Result<Value, FilterFault>;

/// `jq::JsonFilter` from a program, through `FromStr`: the compiled filter,
/// or `None` for a text that is no program. Whether a text compiles is a
/// function of the text alone. Only the program of this library is handed in.
#[verifier::external_body]
fn compile(program: &str) -> (r: Option<JsonFilter>)
    requires
        program@ == FILTER_PROGRAM@,
    ensures
        r is Some <==> compiles(program@),
{
    program.parse::<JsonFilter>().ok()
}

/// `jq::JsonFilter::filter_json` on the filter of this library: the first
/// output of the program on `input`. The program reads nothing but the
/// record, so that what comes out is a function of the record alone; it does
/// not loop and does not halt.
#[verifier::external_body]
fn run(filter: &RecordFilter, input: Value) -> (r: Result<Value, FilterFailure>)
    ensures
        match r {
            Ok(value) => record_output(input) matches Ok(v) && v == value,
            Err(e) => record_output(input) matches Err(f) && f == e@,
        },
{
    match filter.inner.filter_json(input) {
        Ok(value) => Ok(value),
        Err(JsonFilterError::NoOutput) => Err(FilterFailure::NoOutput),
        Err(e) => Err(FilterFailure::Failed { message: e.to_string() }),
    }
}

/// The filter, compiled. `None` only where the program does not compile.
pub fn filter() -> (r: Option<RecordFilter>)
    ensures
        r is Some <==> compiles(FILTER_PROGRAM@),
{
    match compile(FILTER_PROGRAM) {
        Some(inner) => Some(RecordFilter { inner }),
        None => None,
    }
}

/// Whether `emission` is what is done with the outcome `outcome` of a filter:
/// a value is printed, no output is passed over in silence, and a failure is
/// reported without ending the run.
pub open spec fn emits(outcome: Result<Value, FilterFault>, emission: Emission) -> bool {
    match outcome {
        Ok(value) => emission == Emission::Print(value),
        Err(FilterFault::NoOutput) => emission is Skip,
        Err(FilterFault::Failed { message }) => emission matches Emission::Report(text) && text@
            == message,
    }
}

/// An outcome as contracts see it.
pub open spec fn outcome_view(outcome: Result<Value, FilterFailure>) -> Result<Value, FilterFault> {
    match outcome {
        Ok(value) => Ok(value),
        Err(e) => Err(e@),
    }
}

/// Says what is done with the outcome of a filter.
pub fn emission(outcome: Result<Value, FilterFailure>) -> (r: Emission)
    ensures
        emits(outcome_view(outcome), r),
{
    match outcome {
        Ok(value) => Emission::Print(value),
        Err(FilterFailure::NoOutput) => Emission::Skip,
        Err(FilterFailure::Failed { message }) => Emission::Report(message),
    }
}

/// Puts a record through the filter, and says what is done with the outcome.
pub fn filter_json(filter: &RecordFilter, input: Value) -> (r: Emission)
    ensures
        emits(record_output(input), r),
{
    emission(run(filter, input))
}

} // verus!
