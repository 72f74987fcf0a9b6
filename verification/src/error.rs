//! The failures the resolution engine can surface.

use vstd::prelude::*;

verus! {

/// Why a status could not be resolved. No variant is ever turned into a
/// cached value; all of them propagate to the caller.
#[derive(Clone, Copy, Debug, PartialEq, Eq, Structural)]
pub enum TempoError {
    /// Network or transport failure calling the provider.
    UpstreamUnavailable,
    /// The provider's response had the wrong shape or an unknown status
    /// literal.
    UpstreamParseError,
    /// A requested "today" was absent from an otherwise successful response.
    DateNotFound,
    /// A malformed date was supplied by the caller.
    InvalidDateInput,
}

impl TempoError {
    /// A fixed description of the failure, for the caller to report.
    pub fn message(&self) -> (r: String)
        ensures
            r@ == match self {
                TempoError::UpstreamUnavailable => "upstream API call failed"@,
                TempoError::UpstreamParseError => "upstream response could not be parsed"@,
                TempoError::DateNotFound => "date not found in upstream response"@,
                TempoError::InvalidDateInput => "invalid date input"@,
            },
    {
        match self {
            TempoError::UpstreamUnavailable => "upstream API call failed".to_owned(),
            TempoError::UpstreamParseError => "upstream response could not be parsed".to_owned(),
            TempoError::DateNotFound => "date not found in upstream response".to_owned(),
            TempoError::InvalidDateInput => "invalid date input".to_owned(),
        }
    }
}

} // verus!
