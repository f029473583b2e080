//! The single error taxonomy every operation of the library reports in.

use vstd::prelude::*;

verus! {

/// Why an operation failed.
///
/// The first three variants are validation failures, raised locally by
/// a payload builder before anything would be sent.  `Transport` carries
/// the message of a failed network exchange, `Remote` the service's own
/// error report (a response with a nonzero `errorId`), `Decode` a
/// response that does not have the promised shape, `MalformedInput` a
/// raw task document that is not valid JSON, and `Timeout` a polling
/// loop that exhausted its attempt budget.
#[derive(Debug, Clone, PartialEq, Eq)]
pub enum Error {
    UnsupportedKind,
    UnsupportedModule,
    ScoreOutOfRange,
    Transport(String),
    Remote { code: String, description: String },
    Decode,
    MalformedInput,
    Timeout,
}

} // verus!
