use vstd::prelude::*;

verus! {

/// The single error taxonomy every backend operation is translated into
/// before it reaches a caller.
#[derive(Debug)]
pub enum TodoAppError {
    /// A referenced item no longer exists.
    NotFound,
    /// Opening the connection, signing in, or selecting the
    /// namespace/database failed; carries a human-readable cause.
    BackendUnavailable(String),
    /// A list/create/delete call failed after a valid handle was
    /// obtained; carries the backend's message.
    OperationFailed(String),
}

impl Clone for TodoAppError {
    fn clone(&self) -> (r: Self)
        ensures
            r == *self,
    {
        match self {
            TodoAppError::NotFound => TodoAppError::NotFound,
            TodoAppError::BackendUnavailable(cause) => {
                TodoAppError::BackendUnavailable(cause.clone())
            },
            TodoAppError::OperationFailed(detail) => {
                TodoAppError::OperationFailed(detail.clone())
            },
        }
    }
}

impl TodoAppError {
    /// The HTTP status code this error renders as.
    pub open spec fn spec_status_code(&self) -> u16 {
        match self {
            TodoAppError::NotFound => 404u16,
            TodoAppError::BackendUnavailable(_) => 500u16,
            TodoAppError::OperationFailed(_) => 500u16,
        }
    }

    /// `NotFound` maps to 404; every other failure is a server-side 500.
    pub fn status_code(&self) -> (code: u16)
        ensures
            code == self.spec_status_code(),
    {
        match self {
            TodoAppError::NotFound => 404,
            TodoAppError::BackendUnavailable(_) => 500,
            TodoAppError::OperationFailed(_) => 500,
        }
    }

    /// The text `message` returns.
    pub open spec fn spec_message(&self) -> Seq<char> {
        match self {
            TodoAppError::NotFound => "Not Found"@,
            TodoAppError::BackendUnavailable(cause) => cause@,
            TodoAppError::OperationFailed(detail) => detail@,
        }
    }

    /// A short human-readable description of the error.
    pub fn message(&self) -> (msg: String)
        ensures
            msg@ == self.spec_message(),
    {
        match self {
            TodoAppError::NotFound => "Not Found".to_owned(),
            TodoAppError::BackendUnavailable(cause) => cause.clone(),
            TodoAppError::OperationFailed(detail) => detail.clone(),
        }
    }
}

} // verus!
