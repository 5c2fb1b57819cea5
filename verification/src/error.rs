//! The uniform failure type, and the bridge that builds it from a foreign
//! error record.

use vstd::prelude::*;

verus! {

/// The record every fallible foreign call returns: a numeric code, a numeric
/// subcode, and a diagnostic message. A code of zero signals success. The
/// message arrives here already decoded to text; reading it out of the
/// foreign layer's raw storage is the caller's concern.
pub struct ErrorRecord {
    pub code: i32,
    pub subcode: i32,
    pub message: String,
}

/// The uniform failure value of this layer.
#[derive(Debug, PartialEq)]
pub enum HeifError {
    /// The foreign layer could not allocate a session resource.
    Allocation,
    /// A foreign read, lookup, or decode call reported a non-zero code; the
    /// foreign diagnostic is carried verbatim.
    Decode { code: i32, subcode: i32, message: String },
    /// A requested channel is absent from a decoded image.
    NoSuchChannel,
    /// A channel exists but no sample buffer could be obtained for it.
    BufferUnavailable,
    /// A foreign numeric dimension does not fit the host's unsigned size type.
    Range,
}

/// The one place a foreign error record becomes a failure value: a zero code
/// passes, any other code becomes `Decode` carrying the record's fields.
pub fn check_error(err: ErrorRecord) -> (r: Result<(), HeifError>)
    ensures
        r is Ok <==> err.code == 0,
        err.code != 0 ==> (r matches Err(HeifError::Decode { code, subcode, message })
            && code == err.code
            && subcode == err.subcode
            && message == err.message),
{
    if err.code == 0 {
        Ok(())
    } else {
        Err(HeifError::Decode { code: err.code, subcode: err.subcode, message: err.message })
    }
}

} // verus!
