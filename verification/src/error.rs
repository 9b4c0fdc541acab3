//! The failures that abort a scrape.

use vstd::prelude::*;

verus! {

/// A failure of the engine client: the engine could not be reached, or what
/// it answered could not be read.
#[derive(Clone, Debug, PartialEq, Eq)]
pub struct EngineError {
    pub message: String,
}

/// Why an update was given up. The variant tells which of the two queries
/// failed.
#[derive(Clone, Debug, PartialEq, Eq)]
pub enum CollectorError {
    /// The container listing failed.
    Inventory(EngineError),
    /// The statistics query failed.
    Stats(EngineError),
}

impl CollectorError {
    /// The line that describes the failure: the query that failed, then the
    /// engine client's own words.
    pub open spec fn spec_message(self) -> Seq<char> {
        match self {
            CollectorError::Inventory(cause) => "Containers request: "@ + cause.message@,
            CollectorError::Stats(cause) => "Stats request: "@ + cause.message@,
        }
    }

    /// The line that describes the failure.
    pub fn message(&self) -> (text: String)
        ensures
            text@ == self.spec_message(),
    {
        match self {
            CollectorError::Inventory(cause) => "Containers request: ".to_owned().concat(
                cause.message.as_str(),
            ),
            CollectorError::Stats(cause) => "Stats request: ".to_owned().concat(
                cause.message.as_str(),
            ),
        }
    }
}

} // verus!
