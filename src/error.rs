use vstd::prelude::*;

verus! {

/// A failure reported by the exchange service itself.
#[derive(Clone, Debug, PartialEq, Eq)]
pub enum ServiceError {
    ServerError,
    ServiceUnavailable,
}

/// A request the exchange refused.
#[derive(Clone, Debug, PartialEq, Eq)]
pub enum RequestError {
    Unauthorized,
    MandatoryFieldOmitted(String),
    OutOfBounds,
}

impl RequestError {
    /// The error for a request that left out the named mandatory field(s).
    pub fn mandatory_field_omitted(field: String) -> (r: Self)
        ensures
            r == RequestError::MandatoryFieldOmitted(field),
    {
        RequestError::MandatoryFieldOmitted(field)
    }
}

/// The library's error.
#[derive(Clone, Debug, PartialEq, Eq)]
pub enum LibError {
    ApiError(RequestError),
    ServiceError(ServiceError),
    /// A request declared a cost against a bucket the rate limiter does not have.
    UndefinedBucket(String),
    /// The admission channel between a caller and the dispatcher is gone.
    ChannelClosed,
    Other(String),
}

impl LibError {
    pub fn other(s: String) -> (r: Self)
        ensures
            r == LibError::Other(s),
    {
        LibError::Other(s)
    }
}

} // verus!
