use vstd::prelude::*;
use crate::error::Error;

verus! {

/// A request that can be checked before any store round trip.
pub trait Validate {
    /// The field of the first check that the request fails, if any.
    spec fn violation(&self) -> Option<Seq<char>>;

    fn validate(&self) -> (r: Result<(), Error>)
        ensures
            r is Ok <==> self.violation() is None,
            r matches Err(e) ==> e matches Error::ValidationError { field, .. } && self.violation()
                == Some(field@),
    ;
}

} // verus!
