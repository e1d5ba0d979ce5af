use vstd::prelude::*;

verus! {

/// A fatal invocation-level failure. A contract invocation either fully
/// commits or fully aborts: none of these conditions has a recovery path, so
/// callers propagate them outward until the whole invocation is rolled back.
#[derive(Debug, Clone, Copy, PartialEq, Eq, Structural)]
pub enum ScError {
    /// A strict accessor asked for a key that is absent from its source.
    NotFound,
    /// Bytes were present under the key but are malformed for the requested
    /// value kind.
    DecodeError,
    /// A checked addition or multiplication left the kind's range.
    Overflow,
    /// A checked subtraction left the kind's range.
    Underflow,
    /// A checked division had a zero divisor, or no representable quotient.
    DivideByZero,
    /// An authorization gate found the caller lacking the required identity.
    Unauthorized,
    /// A cross-contract call could not reach its target entry point.
    TransportFailure,
}

impl ScError {
    /// The human-readable description of the condition, for the host to
    /// report when it aborts the invocation.
    pub fn message(&self) -> (r: String)
        ensures
            (match self {
                ScError::NotFound => r@ == "required variable not found"@,
                ScError::DecodeError => r@ == "stored bytes are malformed for the requested kind"@,
                ScError::Overflow => r@ == "invalid addition or multiplication operation"@,
                ScError::Underflow => r@ == "invalid subtraction operation"@,
                ScError::DivideByZero => r@ == "invalid division operation"@,
                ScError::Unauthorized => r@ == "caller lacks the required identity"@,
                ScError::TransportFailure => r@ == "cross-contract call failed"@,
            }),
    {
        match self {
            ScError::NotFound => "required variable not found".to_owned(),
            ScError::DecodeError => "stored bytes are malformed for the requested kind".to_owned(),
            ScError::Overflow => "invalid addition or multiplication operation".to_owned(),
            ScError::Underflow => "invalid subtraction operation".to_owned(),
            ScError::DivideByZero => "invalid division operation".to_owned(),
            ScError::Unauthorized => "caller lacks the required identity".to_owned(),
            ScError::TransportFailure => "cross-contract call failed".to_owned(),
        }
    }
}

} // verus!
