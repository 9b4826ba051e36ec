use cdrs_tokio::error::Error as DriverError;
use vstd::prelude::*;

verus! {

/// The errors that cross this layer's boundary.
#[derive(Debug)]
pub enum Error {
    /// A caller-supplied value is structurally invalid.
    ValidationError { field: String, message: String },
    /// The store round trip failed, the store rejected the statement, or a
    /// row could not be decoded.
    CassandraError(String),
    /// A single-row read executed and matched no row.
    NotFound,
    /// An unsupported address family or an unusable mandatory connection
    /// parameter.
    ConfigurationFatal(String),
}

/// tonic's gRPC status code, a field-less enum whose variants Verus reads.
#[verifier::external_type_specification]
pub struct ExCode(tonic::Code);

/// cdrs_tokio's error type (cassandra_protocol::error::Error), carried
/// opaquely: nothing of its content is relied on.
#[verifier::external_type_specification]
#[verifier::external_body]
pub struct ExDriverError(DriverError);

/// Relies on tonic::Code::description: the fixed text of each status code.
pub assume_specification[ tonic::Code::description ](code: &tonic::Code) -> (r: &'static str)
    ensures
        *code == tonic::Code::InvalidArgument ==> r@ == "Client specified an invalid argument"@,
        *code == tonic::Code::NotFound ==> r@ == "Some requested entity was not found"@,
        *code == tonic::Code::Internal ==> r@ == "Internal error"@,
;

impl Error {
    /// A failure reported by the store driver, as it crosses the boundary: a
    /// store error with a generic message, without the driver's own text.
    pub fn from_driver(err: DriverError) -> (r: Error)
        ensures
            r matches Error::CassandraError(m) && m@ == "Internal error"@,
    {
        let _ = err;
        Error::CassandraError(String::from_str("Internal error"))
    }

    /// The status code under which the error is reported.
    pub fn code(&self) -> (r: tonic::Code)
        ensures
            r == match self {
                Error::ValidationError { .. } => tonic::Code::InvalidArgument,
                Error::NotFound => tonic::Code::NotFound,
                _ => tonic::Code::Internal,
            },
    {
        match self {
            Error::ValidationError { .. } => tonic::Code::InvalidArgument,
            Error::NotFound => tonic::Code::NotFound,
            _ => tonic::Code::Internal,
        }
    }

    /// The generic message that crosses the boundary: the description of the
    /// error's status code, never the internal detail.
    pub fn message(&self) -> (r: String)
        ensures
            r@ == match self {
                Error::ValidationError { .. } => "Client specified an invalid argument"@,
                Error::NotFound => "Some requested entity was not found"@,
                _ => "Internal error"@,
            },
    {
        let code = self.code();
        String::from_str(code.description())
    }
}

} // verus!
