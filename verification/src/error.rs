//! The error that every fallible operation of this library returns.
use vstd::prelude::*;

verus! {

/// An error that is handed to JavaScript: the name of its class and its
/// message.
#[derive(Debug)]
pub struct AnyError {
    pub class: String,
    pub message: String,
}

/// What an error says.
pub struct ErrorView {
    pub class: Seq<char>,
    pub message: Seq<char>,
}

impl View for AnyError {
    type V = ErrorView;

    open spec fn view(&self) -> ErrorView {
        ErrorView { class: self.class@, message: self.message@ }
    }
}

/// An error of the class `TypeError`.
pub open spec fn type_error_view(message: Seq<char>) -> ErrorView {
    ErrorView { class: "TypeError"@, message }
}

/// An error of the class `Error`.
pub open spec fn generic_error_view(message: Seq<char>) -> ErrorView {
    ErrorView { class: "Error"@, message }
}

/// An error of a class that the caller names.
pub open spec fn custom_error_view(class: Seq<char>, message: Seq<char>) -> ErrorView {
    ErrorView { class, message }
}

/// The error for a resource that is not in the table.
pub open spec fn bad_resource_view() -> ErrorView {
    ErrorView { class: "BadResource"@, message: "Bad resource ID"@ }
}

/// Makes an error of the class `TypeError`.
pub fn type_error(message: &str) -> (e: AnyError)
    ensures
        e@ == type_error_view(message@),
{
    AnyError { class: "TypeError".to_owned(), message: message.to_owned() }
}

/// Makes an error of the class `Error`.
pub fn generic_error(message: &str) -> (e: AnyError)
    ensures
        e@ == generic_error_view(message@),
{
    AnyError { class: "Error".to_owned(), message: message.to_owned() }
}

/// Makes an error of the given class.
pub fn custom_error(class: &str, message: &str) -> (e: AnyError)
    ensures
        e@ == custom_error_view(class@, message@),
{
    AnyError { class: class.to_owned(), message: message.to_owned() }
}

/// Makes the error for a resource that is not in the table.
pub fn bad_resource_id() -> (e: AnyError)
    ensures
        e@ == bad_resource_view(),
{
    AnyError { class: "BadResource".to_owned(), message: "Bad resource ID".to_owned() }
}

/// What a result says, where its value has a view of its own.
pub open spec fn result_view<T: View>(r: Result<T, AnyError>) -> Result<T::V, ErrorView> {
    match r {
        Ok(v) => Ok(v@),
        Err(e) => Err(e@),
    }
}

/// The classes that errors are raised under, each with the message it was given.
pub proof fn law_classes_of_errors(class: Seq<char>, message: Seq<char>)
    ensures
        type_error_view(message).class == "TypeError"@ && type_error_view(message).message
            == message,
        generic_error_view(message).class == "Error"@ && generic_error_view(message).message
            == message,
        custom_error_view(class, message).class == class && custom_error_view(
            class,
            message,
        ).message == message,
        bad_resource_view().class == "BadResource"@ && bad_resource_view().message
            == "Bad resource ID"@,
{
}

/// What an error and a result say is what they hold.
pub proof fn law_errors_say_what_they_hold<T: View>(error: AnyError, value: T)
    ensures
        error@.class == error.class@ && error@.message == error.message@,
        result_view(Ok::<T, AnyError>(value)) == Ok::<T::V, ErrorView>(value@),
        result_view(Err::<T, AnyError>(error)) == Err::<T::V, ErrorView>(error@),
{
}

} // verus!
