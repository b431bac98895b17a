//! What a request is answered.
use vstd::prelude::*;

verus! {

/// What is sent back. `S` is the type of texts, `T` that of the values that the Web API
/// returned and that are passed on as they are, `L` that of lists of them.
#[derive(Debug, PartialEq, Eq)]
pub enum Body<S, L, T> {
    /// An object with one field, which holds a text.
    Field { name: S, value: S },
    /// A value of the Web API.
    Value(T),
    /// An array of values of the Web API.
    Array(L),
}

/// What is sent back, as it is returned.
pub type RequestBody<T> = Body<String, Vec<T>, T>;

/// What is sent back, as the contracts speak of it.
pub type BodyView<T> = Body<Seq<char>, Seq<T>, T>;

impl<S: View, L: View, T> View for Body<S, L, T> {
    type V = Body<S::V, L::V, T>;

    open spec fn view(&self) -> Body<S::V, L::V, T> {
        match *self {
            Body::Field { name, value } => Body::Field { name: name@, value: value@ },
            Body::Value(v) => Body::Value(v),
            Body::Array(values) => Body::Array(values@),
        }
    }
}

/// What is sent back, with its HTTP status.
#[derive(Debug, PartialEq, Eq)]
pub struct Response<S, L, T> {
    pub status: u16,
    pub body: Body<S, L, T>,
}

/// What is sent back with its status, as it is returned.
pub type RequestResponse<T> = Response<String, Vec<T>, T>;

/// What is sent back with its status, as the contracts speak of it.
pub type ResponseView<T> = Response<Seq<char>, Seq<T>, T>;

impl<S: View, L: View, T> View for Response<S, L, T> {
    type V = Response<S::V, L::V, T>;

    open spec fn view(&self) -> Response<S::V, L::V, T> {
        Response { status: self.status, body: self.body@ }
    }
}

/// Why a request failed.
#[derive(Clone, Copy, Debug, PartialEq, Eq, Structural)]
pub enum SError {
    NotFound,
    StatusError,
    InvalidUsername,
}

/// A failed request.
#[derive(Clone, Copy, Debug, PartialEq, Eq, Structural)]
pub enum AppError {
    Playback(SError),
}

impl From<SError> for AppError {
    fn from(inner: SError) -> (r: Self) {
        AppError::Playback(inner)
    }
}

impl vstd::std_specs::convert::FromSpecImpl<SError> for AppError {
    open spec fn obeys_from_spec() -> bool {
        true
    }

    open spec fn from_spec(inner: SError) -> Self {
        AppError::Playback(inner)
    }
}

impl AppError {
    /// The HTTP status that stands for the failure.
    pub open spec fn status(self) -> u16 {
        match self {
            AppError::Playback(SError::NotFound) => 404,
            AppError::Playback(SError::StatusError) => 500,
            AppError::Playback(SError::InvalidUsername) => 422,
        }
    }

    /// The text that stands for the failure.
    pub open spec fn message(self) -> Seq<char> {
        match self {
            AppError::Playback(SError::NotFound) => "User not found"@,
            AppError::Playback(SError::StatusError) => "Failed to get the data"@,
            AppError::Playback(SError::InvalidUsername) => "Invalid username"@,
        }
    }

    /// What a failed request is answered.
    pub open spec fn response<T>(self) -> ResponseView<T> {
        Response {
            status: self.status(),
            body: Body::Field { name: "error"@, value: self.message() },
        }
    }

    /// What a failed request is answered.
    pub fn into_response<T>(self) -> (r: RequestResponse<T>)
        ensures
            r@ == self.response::<T>(),
    {
        let (status, message): (u16, &'static str) = match self {
            AppError::Playback(SError::NotFound) => (404, "User not found"),
            AppError::Playback(SError::StatusError) => (500, "Failed to get the data"),
            AppError::Playback(SError::InvalidUsername) => (422, "Invalid username"),
        };
        Response {
            status,
            body: Body::Field { name: "error".to_owned(), value: message.to_owned() },
        }
    }
}

/// What a request came to, as contracts speak of it.
pub open spec fn outcome_view<T>(outcome: Result<RequestBody<T>, AppError>) -> Result<
    BodyView<T>,
    AppError,
> {
    match outcome {
        Ok(body) => Ok(body@),
        Err(e) => Err(e),
    }
}

/// What a request is answered that came to `outcome`.
pub open spec fn answer<T>(outcome: Result<BodyView<T>, AppError>) -> ResponseView<T> {
    match outcome {
        Ok(body) => Response { status: 200, body },
        Err(e) => e.response(),
    }
}

/// What a request is answered that came to `outcome`.
pub fn respond<T>(outcome: Result<RequestBody<T>, AppError>) -> (r: RequestResponse<T>)
    ensures
        r@ == answer(outcome_view(outcome)),
{
    match outcome {
        Ok(body) => Response { status: 200, body },
        Err(e) => e.into_response(),
    }
}

/// Different failures have different statuses, and none has that of success.
pub proof fn statuses_tell_failures_apart(a: AppError, b: AppError)
    ensures
        a.status() == b.status() ==> a == b,
        a.status() != 200,
{
}

/// A request that came to something is answered with status 200 and just that; one that failed
/// with the status and the words for its failure, in a field of the name `error`.
pub proof fn answers_say_what_came<T>(body: BodyView<T>, e: SError)
    ensures
        answer(Ok(body)) == (Response { status: 200, body }),
        answer::<T>(Err(AppError::Playback(e))).status == match e {
            SError::NotFound => 404,
            SError::StatusError => 500,
            SError::InvalidUsername => 422u16,
        },
        answer::<T>(Err(AppError::Playback(e))).body == (BodyView::<T>::Field {
            name: "error"@,
            value: match e {
                SError::NotFound => "User not found"@,
                SError::StatusError => "Failed to get the data"@,
                SError::InvalidUsername => "Invalid username"@,
            },
        }),
{
}

/// Contracts speak of an answer by its status and by all that its body holds.
pub proof fn response_view_keeps_fields<T>(response: RequestResponse<T>)
    ensures
        response@.status == response.status,
        response@.body == response.body@,
        match response.body {
            Body::Field { name, value } => response.body@
                == (BodyView::<T>::Field { name: name@, value: value@ }),
            Body::Value(v) => response.body@ == BodyView::<T>::Value(v),
            Body::Array(values) => response.body@ == BodyView::<T>::Array(values@),
        },
        outcome_view(Ok(response.body)) == Ok::<BodyView<T>, AppError>(response.body@),
        forall|e: AppError| #[trigger]
            outcome_view::<T>(Err(e)) == Err::<BodyView<T>, AppError>(e),
{
}

} // verus!
