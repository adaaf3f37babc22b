//! The error that every operation of the provider reports.
use vstd::prelude::*;

verus! {

/// Why an operation of the provider failed.
#[derive(Debug)]
pub enum SecretSpecError {
    /// The operation failed, for the reason that the message gives.
    ProviderOperationFailed(String),
}

/// An error is known by its message.
impl View for SecretSpecError {
    type V = Seq<char>;

    open spec fn view(&self) -> Seq<char> {
        match self {
            SecretSpecError::ProviderOperationFailed(message) => message@,
        }
    }
}

impl SecretSpecError {
    /// The message for the user.
    pub fn message(&self) -> (message: &str)
        ensures
            message@ == self@,
    {
        match self {
            SecretSpecError::ProviderOperationFailed(message) => message.as_str(),
        }
    }
}

/// The error with the given message.
pub(crate) fn failure(message: &str) -> (error: SecretSpecError)
    ensures
        error@ == message@,
{
    SecretSpecError::ProviderOperationFailed(message.to_owned())
}

/// The error whose message is `before` and then `reason`.
pub(crate) fn failure_because(before: &str, reason: &str) -> (error: SecretSpecError)
    ensures
        error@ == before@ + reason@,
{
    SecretSpecError::ProviderOperationFailed(before.to_owned().concat(reason))
}

/// The error whose message is `before`, `detail` and `after`, in this order.
pub(crate) fn failure_with(before: &str, detail: &str, after: &str) -> (error: SecretSpecError)
    ensures
        error@ == before@ + detail@ + after@,
{
    SecretSpecError::ProviderOperationFailed(before.to_owned().concat(detail).concat(after))
}

/// The view of a result: the view of the value, or the message of the error.
pub open spec fn result_view<T: View>(result: Result<T, SecretSpecError>) -> Result<
    T::V,
    Seq<char>,
> {
    match result {
        Ok(value) => Ok(value@),
        Err(error) => Err(error@),
    }
}

} // verus!
