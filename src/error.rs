use vstd::prelude::*;

verus! {

/// Every failure that an operation of the library reports to its caller.
#[derive(Debug)]
pub enum StpcError {
    KeyGenerationError(String),
    SignatureComputingError(String),
    SignatureVerifyError,
    TimeServiceError(String),
    InvalidPacketError(String),
    TimeCertValidError(String),
    SerilizateError(String),
    DeserilizateError(String),
}

} // verus!
