//! How an exchange can end without a response, and how the status of a
//! reply is classified.

use vstd::prelude::*;

verus! {

/// The four classes of outcome of a call.
#[derive(Debug, Clone, Copy, PartialEq, Eq, Structural)]
pub enum StatusClass {
    /// The service answered with status 200.
    Success,
    /// The service answered with status 400.
    BadRequest,
    /// The service answered with status 401.
    Unauthorized,
    /// Any other status, or no status at all.
    Other,
}

/// Why an exchange ended without a response.
#[derive(Debug, Clone, PartialEq, Eq)]
pub enum Failure {
    /// No operation was selected, no usable credential was given, or the
    /// dispatcher was driven out of turn. No call was made.
    Configuration,
    /// The file to send could not be read. No call was made.
    LocalIo,
    /// The call was made and no status came back.
    Transport,
    /// The service answered with a status other than success.
    Application {
        /// The class of the status; never `Success`.
        class: StatusClass,
        /// The status itself.
        status: u16,
        /// The body of the reply, for the diagnostic.
        body: String,
    },
    /// The service answered with success and the body did not have the
    /// shape that belongs to the request.
    Decode,
}

/// The class of the outcome of a call, by the numeric status alone; `None`
/// stands for a call that brought no status back.
pub open spec fn spec_classify(status: Option<u16>) -> StatusClass {
    match status {
        Some(code) => if code == 200 {
            StatusClass::Success
        } else if code == 400 {
            StatusClass::BadRequest
        } else if code == 401 {
            StatusClass::Unauthorized
        } else {
            StatusClass::Other
        },
        None => StatusClass::Other,
    }
}

/// Classifies the outcome of a call by its numeric status.
pub fn classify(status: Option<u16>) -> (class: StatusClass)
    ensures
        class == spec_classify(status),
        class == StatusClass::Success <==> status == Some(200u16),
{
    match status {
        Some(200) => StatusClass::Success,
        Some(400) => StatusClass::BadRequest,
        Some(401) => StatusClass::Unauthorized,
        _ => StatusClass::Other,
    }
}

impl Failure {
    /// The class of outcome that the failure falls under, for the failures
    /// that come after a call was made.
    pub open spec fn spec_class(&self) -> Option<StatusClass> {
        match self {
            Failure::Transport => Some(StatusClass::Other),
            Failure::Application { class, .. } => Some(*class),
            _ => None,
        }
    }

    /// The class of outcome that the failure falls under.
    pub fn class(&self) -> (class: Option<StatusClass>)
        ensures
            class == self.spec_class(),
    {
        match self {
            Failure::Transport => Some(StatusClass::Other),
            Failure::Application { class, .. } => Some(*class),
            _ => None,
        }
    }
}

} // verus!
